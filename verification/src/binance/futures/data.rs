//! Decisions of the Binance Futures market data client: which product types
//! it serves, which streams a subscription names, and what happens to each
//! message the WebSocket delivers.

use vstd::prelude::*;
use vstd::string::StringExecFns;

use crate::architect::common::enums::str_eq;
use crate::model::enums::BookType;

verus! {

/// Binance product (market) type.
#[derive(Clone, Copy, Debug, PartialEq, Eq, Hash, Structural)]
pub enum BinanceProductType {
    /// Spot market.
    Spot,
    /// Margin market.
    Margin,
    /// USD-M futures.
    UsdM,
    /// COIN-M futures.
    CoinM,
    /// Options.
    Options,
}

impl BinanceProductType {
    /// The variant name, as `Debug` prints it.
    pub open spec fn spec_name(self) -> Seq<char> {
        match self {
            BinanceProductType::Spot => "Spot"@,
            BinanceProductType::Margin => "Margin"@,
            BinanceProductType::UsdM => "UsdM"@,
            BinanceProductType::CoinM => "CoinM"@,
            BinanceProductType::Options => "Options"@,
        }
    }

    /// The variant name, as `Debug` prints it.
    pub fn name(&self) -> (r: &'static str)
        ensures
            r@ == self.spec_name(),
    {
        match self {
            BinanceProductType::Spot => "Spot",
            BinanceProductType::Margin => "Margin",
            BinanceProductType::UsdM => "UsdM",
            BinanceProductType::CoinM => "CoinM",
            BinanceProductType::Options => "Options",
        }
    }

    /// Whether the product type is a futures market.
    pub open spec fn spec_is_futures(self) -> bool {
        self == BinanceProductType::UsdM || self == BinanceProductType::CoinM
    }
}

/// Checks that a futures data client is created for a futures product type.
///
/// # Errors
///
/// Returns the message of the refusal when `product_type` is neither `UsdM` nor `CoinM`.
pub fn check_futures_product_type(product_type: BinanceProductType) -> (r: Result<(), String>)
    ensures
        product_type.spec_is_futures() ==> r is Ok,
        !product_type.spec_is_futures() ==> (r matches Err(m) && m@
            == "BinanceFuturesDataClient requires UsdM or CoinM product type, got "@
            + product_type.spec_name()),
{
    match product_type {
        BinanceProductType::UsdM | BinanceProductType::CoinM => Ok(()),
        _ => {
            let mut message = "BinanceFuturesDataClient requires UsdM or CoinM product type, got ".to_owned();
            message.append(product_type.name());
            Err(message)
        },
    }
}

/// The order book deltas stream of a symbol (100ms diff depth).
pub open spec fn spec_depth_stream(symbol: Seq<char>) -> Seq<char> {
    symbol + "@depth@100ms"@
}

/// The best bid/ask stream of a symbol.
pub open spec fn spec_book_ticker_stream(symbol: Seq<char>) -> Seq<char> {
    symbol + "@bookTicker"@
}

/// The aggregate trades stream of a symbol.
pub open spec fn spec_agg_trade_stream(symbol: Seq<char>) -> Seq<char> {
    symbol + "@aggTrade"@
}

/// The kline stream of a symbol for an interval.
pub open spec fn spec_kline_stream(symbol: Seq<char>, interval: Seq<char>) -> Seq<char> {
    symbol + "@kline_"@ + interval
}

/// The stream to subscribe for order book deltas of `symbol`.
///
/// # Errors
///
/// Returns the message of the refusal when `book_type` is not `L2_MBP`.
pub fn book_deltas_stream(symbol: &str, book_type: BookType) -> (r: Result<String, String>)
    ensures
        book_type == BookType::L2_MBP ==> (r matches Ok(s) && s@ == spec_depth_stream(symbol@)),
        book_type != BookType::L2_MBP ==> (r matches Err(m) && m@
            == "Binance Futures only supports L2_MBP order book deltas"@),
{
    if book_type != BookType::L2_MBP {
        return Err("Binance Futures only supports L2_MBP order book deltas".to_owned());
    }
    let mut stream = symbol.to_owned();
    stream.append("@depth@100ms");
    Ok(stream)
}

/// The depth streams of a symbol at every update speed.
pub open spec fn spec_depth_streams(symbol: Seq<char>) -> Seq<Seq<char>> {
    seq![
        symbol + "@depth"@,
        spec_depth_stream(symbol),
        symbol + "@depth@250ms"@,
        symbol + "@depth@500ms"@,
    ]
}

/// The streams to unsubscribe for order book deltas of `symbol`: every depth
/// update speed.
pub fn book_deltas_unsubscribe_streams(symbol: &str) -> (r: Vec<String>)
    ensures
        r@.map_values(|s: String| s@) == spec_depth_streams(symbol@),
{
    let mut depth = symbol.to_owned();
    depth.append("@depth");
    let mut depth_100 = symbol.to_owned();
    depth_100.append("@depth@100ms");
    let mut depth_250 = symbol.to_owned();
    depth_250.append("@depth@250ms");
    let mut depth_500 = symbol.to_owned();
    depth_500.append("@depth@500ms");
    let mut streams: Vec<String> = Vec::new();
    streams.push(depth);
    streams.push(depth_100);
    streams.push(depth_250);
    streams.push(depth_500);
    assert(streams@.map_values(|s: String| s@) =~= spec_depth_streams(symbol@));
    streams
}

/// Unsubscribing from order book deltas leaves the stream that a subscription
/// to them opened.
pub proof fn lemma_unsubscribe_covers_subscription(symbol: Seq<char>)
    ensures
        spec_depth_streams(symbol).contains(spec_depth_stream(symbol)),
{
    assert(spec_depth_streams(symbol)[1] == spec_depth_stream(symbol));
}

/// The stream for quotes (best bid/ask) of `symbol`.
pub fn quotes_stream(symbol: &str) -> (r: String)
    ensures
        r@ == spec_book_ticker_stream(symbol@),
{
    let mut stream = symbol.to_owned();
    stream.append("@bookTicker");
    stream
}

/// The stream for trades of `symbol`.
pub fn trades_stream(symbol: &str) -> (r: String)
    ensures
        r@ == spec_agg_trade_stream(symbol@),
{
    let mut stream = symbol.to_owned();
    stream.append("@aggTrade");
    stream
}

/// The stream for bars of `symbol` at the Binance kline `interval`.
pub fn bars_stream(symbol: &str, interval: &str) -> (r: String)
    ensures
        r@ == spec_kline_stream(symbol@, interval@),
{
    let mut stream = symbol.to_owned();
    stream.append("@kline_");
    stream.append(interval);
    stream
}

/// The kinds of message the Futures WebSocket client delivers.
#[derive(Clone, Copy, Debug, PartialEq, Eq, Structural)]
pub enum FuturesWsMessageKind {
    Data,
    Deltas,
    Instrument,
    Error,
    AccountUpdate,
    OrderUpdate,
    MarginCall,
    AccountConfigUpdate,
    ListenKeyExpired,
    RawJson,
    Reconnected,
}

/// What the data client does with a WebSocket message.
#[derive(Clone, Copy, Debug, PartialEq, Eq, Structural)]
pub enum FuturesWsAction {
    /// Send each data payload to the data engine.
    EmitData,
    /// Send the book deltas to the data engine.
    EmitDeltas,
    /// Insert or replace the instrument in the cache.
    UpsertInstrument,
    /// Log at error level.
    LogError,
    /// Log at warning level.
    LogWarning,
    /// Log at info level.
    LogInfo,
    /// Log at debug level; the message is ignored.
    LogDebug,
}

/// The action for each kind of message.
pub open spec fn spec_ws_message_action(kind: FuturesWsMessageKind) -> FuturesWsAction {
    match kind {
        FuturesWsMessageKind::Data => FuturesWsAction::EmitData,
        FuturesWsMessageKind::Deltas => FuturesWsAction::EmitDeltas,
        FuturesWsMessageKind::Instrument => FuturesWsAction::UpsertInstrument,
        FuturesWsMessageKind::Error => FuturesWsAction::LogError,
        FuturesWsMessageKind::AccountUpdate => FuturesWsAction::LogDebug,
        FuturesWsMessageKind::OrderUpdate => FuturesWsAction::LogDebug,
        FuturesWsMessageKind::MarginCall => FuturesWsAction::LogWarning,
        FuturesWsMessageKind::AccountConfigUpdate => FuturesWsAction::LogDebug,
        FuturesWsMessageKind::ListenKeyExpired => FuturesWsAction::LogWarning,
        FuturesWsMessageKind::RawJson => FuturesWsAction::LogDebug,
        FuturesWsMessageKind::Reconnected => FuturesWsAction::LogInfo,
    }
}

/// Decides what the data client does with a WebSocket message: market data
/// is forwarded, instruments are cached, and user-stream events are only logged.
pub fn ws_message_action(kind: FuturesWsMessageKind) -> (r: FuturesWsAction)
    ensures
        r == spec_ws_message_action(kind),
{
    match kind {
        FuturesWsMessageKind::Data => FuturesWsAction::EmitData,
        FuturesWsMessageKind::Deltas => FuturesWsAction::EmitDeltas,
        FuturesWsMessageKind::Instrument => FuturesWsAction::UpsertInstrument,
        FuturesWsMessageKind::Error => FuturesWsAction::LogError,
        FuturesWsMessageKind::AccountUpdate => FuturesWsAction::LogDebug,
        FuturesWsMessageKind::OrderUpdate => FuturesWsAction::LogDebug,
        FuturesWsMessageKind::MarginCall => FuturesWsAction::LogWarning,
        FuturesWsMessageKind::AccountConfigUpdate => FuturesWsAction::LogDebug,
        FuturesWsMessageKind::ListenKeyExpired => FuturesWsAction::LogWarning,
        FuturesWsMessageKind::RawJson => FuturesWsAction::LogDebug,
        FuturesWsMessageKind::Reconnected => FuturesWsAction::LogInfo,
    }
}

/// The first position of `target` among the fetched instrument ids, as used
/// to answer a request for one instrument after fetching them all.
pub fn find_instrument(ids: &Vec<String>, target: &str) -> (r: Option<usize>)
    ensures
        r matches Some(i) ==> i < ids@.len() && ids@[i as int]@ == target@ && forall|j: int|
            0 <= j < i ==> #[trigger] ids@[j]@ != target@,
        r is None ==> forall|j: int| 0 <= j < ids@.len() ==> #[trigger] ids@[j]@ != target@,
{
    let mut i: usize = 0;
    while i < ids.len()
        invariant
            i <= ids@.len(),
            forall|j: int| 0 <= j < i ==> #[trigger] ids@[j]@ != target@,
        decreases ids@.len() - i,
    {
        if str_eq(ids[i].as_str(), target) {
            return Some(i);
        }
        i = i + 1;
    }
    None
}

/// A lifecycle request made of the Futures data client, or the failure of
/// the connection work it started; a successful connection is completed by
/// [`BinanceFuturesDataClient::connect_succeeded`].
#[derive(Clone, Copy, Debug, PartialEq, Eq, Structural)]
pub enum ClientLifecycleEvent {
    /// `connect` was called.
    Connect,
    /// Fetching the instruments or connecting the WebSocket failed.
    ConnectFailed,
    /// `disconnect` was called.
    Disconnect,
    /// `stop` (or `dispose`) was called.
    Stop,
    /// `reset` was called.
    Reset,
}

/// The work the client performs for a lifecycle event.
#[derive(Clone, Copy, Debug, PartialEq, Eq, Structural)]
pub enum ClientLifecycleAction {
    /// Nothing to do.
    Nothing,
    /// Renew the cancellation token, fetch and cache the instruments, publish
    /// them, connect the WebSocket and start the stream task.
    StartConnection,
    /// Cancel the stream task, close the WebSocket and join the tasks.
    CloseConnection,
    /// Cancel the stream task.
    CancelTasks,
    /// Cancel and abort the tasks, close the WebSocket and renew the
    /// cancellation token.
    AbortAndRenew,
}

/// The connection flag and work after `event`, for a client whose flag is
/// `connected`.
pub open spec fn spec_lifecycle_step(connected: bool, event: ClientLifecycleEvent) -> (bool, ClientLifecycleAction) {
    match event {
        ClientLifecycleEvent::Connect => if connected {
            (true, ClientLifecycleAction::Nothing)
        } else {
            (false, ClientLifecycleAction::StartConnection)
        },
        ClientLifecycleEvent::ConnectFailed => (connected, ClientLifecycleAction::Nothing),
        ClientLifecycleEvent::Disconnect => if connected {
            (false, ClientLifecycleAction::CloseConnection)
        } else {
            (false, ClientLifecycleAction::Nothing)
        },
        ClientLifecycleEvent::Stop => (false, ClientLifecycleAction::CancelTasks),
        ClientLifecycleEvent::Reset => (false, ClientLifecycleAction::AbortAndRenew),
    }
}

/// One step of the Futures data client's lifecycle: connecting a connected
/// client and disconnecting a disconnected one do nothing; a failed
/// connection leaves the client as it was.
pub fn lifecycle_step(connected: bool, event: ClientLifecycleEvent) -> (r: (bool, ClientLifecycleAction))
    ensures
        r == spec_lifecycle_step(connected, event),
{
    match event {
        ClientLifecycleEvent::Connect => {
            if connected {
                (true, ClientLifecycleAction::Nothing)
            } else {
                (false, ClientLifecycleAction::StartConnection)
            }
        },
        ClientLifecycleEvent::ConnectFailed => (connected, ClientLifecycleAction::Nothing),
        ClientLifecycleEvent::Disconnect => {
            if connected {
                (false, ClientLifecycleAction::CloseConnection)
            } else {
                (false, ClientLifecycleAction::Nothing)
            }
        },
        ClientLifecycleEvent::Stop => (false, ClientLifecycleAction::CancelTasks),
        ClientLifecycleEvent::Reset => (false, ClientLifecycleAction::AbortAndRenew),
    }
}

/// Connecting is idempotent: `connect` on a connected client, as a
/// successful connection leaves it, does nothing, and so does a second
/// `disconnect`.
pub proof fn lemma_connect_disconnect_idempotent(connected: bool)
    ensures
        spec_lifecycle_step(true, ClientLifecycleEvent::Connect) == (true, ClientLifecycleAction::Nothing),
        ({
            let (c1, _) = spec_lifecycle_step(connected, ClientLifecycleEvent::Disconnect);
            spec_lifecycle_step(c1, ClientLifecycleEvent::Disconnect) == (false, ClientLifecycleAction::Nothing)
        }),
{
}

/// After `disconnect`, `stop` or `reset` the client is disconnected, whatever
/// its state before.
pub proof fn lemma_shutdown_disconnects(connected: bool, event: ClientLifecycleEvent)
    requires
        event == ClientLifecycleEvent::Disconnect || event == ClientLifecycleEvent::Stop || event
            == ClientLifecycleEvent::Reset,
    ensures
        !spec_lifecycle_step(connected, event).0,
{
}

/// The ids of a list of instruments, as text.
pub open spec fn id_texts(ids: Seq<String>) -> Seq<Seq<char>> {
    ids.map_values(|s: String| s@)
}

/// `ids` with `id` added at the end, unless it is already there.
pub open spec fn spec_upsert(ids: Seq<Seq<char>>, id: Seq<char>) -> Seq<Seq<char>> {
    if ids.contains(id) {
        ids
    } else {
        ids.push(id)
    }
}

/// `ids` after upserting each of `added`, in order.
pub open spec fn spec_upsert_all(ids: Seq<Seq<char>>, added: Seq<Seq<char>>) -> Seq<Seq<char>>
    decreases added.len(),
{
    if added.len() == 0 {
        ids
    } else {
        spec_upsert(spec_upsert_all(ids, added.drop_last()), added.last())
    }
}

/// The state that the Binance Futures data client keeps of itself: who it
/// is, which market it serves, whether it is connected, how many stream tasks
/// it runs, and the ids of the instruments it has cached.
#[derive(Debug)]
pub struct BinanceFuturesDataClient {
    /// The client's id.
    pub client_id: String,
    /// The futures market served.
    pub product_type: BinanceProductType,
    /// Whether the client is connected.
    pub connected: bool,
    /// The number of running stream tasks.
    pub task_count: usize,
    /// The ids of the cached instruments.
    pub instrument_ids: Vec<String>,
}

/// Where an instrument request is answered from.
#[derive(Clone, Copy, Debug, PartialEq, Eq, Structural)]
pub enum InstrumentRequestSource {
    /// From the cached instrument at this position.
    Cached(usize),
    /// From a fresh fetch of all instruments.
    FetchAll,
}

impl BinanceFuturesDataClient {
    /// Creates the client state for `client_id` serving `product_type`: not
    /// connected, with no tasks and no cached instruments.
    ///
    /// # Errors
    ///
    /// Returns the message of the refusal when `product_type` is neither
    /// `UsdM` nor `CoinM`; the check comes before anything is built.
    pub fn new(client_id: String, product_type: BinanceProductType) -> (r: Result<Self, String>)
        ensures
            match r {
                Ok(c) => {
                    &&& product_type.spec_is_futures()
                    &&& c.client_id@ == client_id@
                    &&& c.product_type == product_type
                    &&& !c.connected
                    &&& c.task_count == 0
                    &&& c.instrument_ids@.len() == 0
                },
                Err(m) => !product_type.spec_is_futures() && m@
                    == "BinanceFuturesDataClient requires UsdM or CoinM product type, got "@
                    + product_type.spec_name(),
            },
    {
        match check_futures_product_type(product_type) {
            Err(m) => Err(m),
            Ok(()) => Ok(
                BinanceFuturesDataClient {
                    client_id,
                    product_type,
                    connected: false,
                    task_count: 0,
                    instrument_ids: Vec::new(),
                },
            ),
        }
    }

    /// The venue the client serves.
    pub fn venue(&self) -> (r: &'static str)
        ensures
            r@ == "BINANCE"@,
    {
        "BINANCE"
    }

    /// Whether the client is connected.
    pub fn is_connected(&self) -> (r: bool)
        ensures
            r == self.connected,
    {
        self.connected
    }

    /// Whether the client is disconnected.
    pub fn is_disconnected(&self) -> (r: bool)
        ensures
            r == !self.connected,
    {
        !self.connected
    }

    /// The client id a request is answered for: the request's own, else the
    /// client's.
    pub fn request_client_id(&self, requested: Option<String>) -> (r: String)
        ensures
            r@ == match requested {
                Some(id) => id@,
                None => self.client_id@,
            },
    {
        match requested {
            Some(id) => id,
            None => self.client_id.clone(),
        }
    }

    /// Applies a lifecycle event and returns the work to perform. Closing a
    /// connection joins the stream tasks and resetting aborts them, so both
    /// leave none; the cached instruments stay.
    pub fn apply_lifecycle(&mut self, event: ClientLifecycleEvent) -> (r: ClientLifecycleAction)
        ensures
            (final(self).connected, r) == spec_lifecycle_step(old(self).connected, event),
            final(self).client_id == old(self).client_id,
            final(self).product_type == old(self).product_type,
            final(self).task_count == (if r == ClientLifecycleAction::CloseConnection || r
                == ClientLifecycleAction::AbortAndRenew {
                0
            } else {
                old(self).task_count
            }),
            final(self).instrument_ids == old(self).instrument_ids,
    {
        let (connected, action) = lifecycle_step(self.connected, event);
        self.connected = connected;
        match action {
            ClientLifecycleAction::CloseConnection | ClientLifecycleAction::AbortAndRenew => {
                self.task_count = 0;
            },
            _ => {},
        }
        action
    }

    /// Completes a successful connection with the instruments fetched, in
    /// order: each is cached, the ids to publish are returned (every fetched
    /// one, in order), one stream task is added, and the client is connected.
    pub fn connect_succeeded(&mut self, fetched_ids: Vec<String>) -> (published: Vec<String>)
        requires
            old(self).task_count < usize::MAX,
        ensures
            final(self).connected,
            final(self).task_count == old(self).task_count + 1,
            final(self).client_id == old(self).client_id,
            final(self).product_type == old(self).product_type,
            id_texts(final(self).instrument_ids@) == spec_upsert_all(
                id_texts(old(self).instrument_ids@),
                id_texts(fetched_ids@),
            ),
            id_texts(published@) == id_texts(fetched_ids@),
    {
        let ghost start = id_texts(self.instrument_ids@);
        let mut published: Vec<String> = Vec::new();
        let mut i: usize = 0;
        while i < fetched_ids.len()
            invariant
                i <= fetched_ids@.len(),
                id_texts(self.instrument_ids@) == spec_upsert_all(
                    start,
                    id_texts(fetched_ids@.subrange(0, i as int)),
                ),
                id_texts(published@) == id_texts(fetched_ids@.subrange(0, i as int)),
                self.client_id == old(self).client_id,
                self.product_type == old(self).product_type,
                self.task_count == old(self).task_count,
                self.task_count < usize::MAX,
            decreases fetched_ids@.len() - i,
        {
            let id = fetched_ids[i].clone();
            let ghost before = id_texts(self.instrument_ids@);
            self.upsert_instrument(id.clone());
            published.push(id);
            proof {
                let prev = id_texts(fetched_ids@.subrange(0, i as int));
                let next = id_texts(fetched_ids@.subrange(0, i + 1));
                assert(next =~= prev.push(fetched_ids@[i as int]@));
                assert(next.drop_last() =~= prev);
                assert(id_texts(published@) =~= next);
            }
            i = i + 1;
        }
        proof {
            assert(fetched_ids@.subrange(0, fetched_ids@.len() as int) =~= fetched_ids@);
        }
        self.task_count = self.task_count + 1;
        self.connected = true;
        published
    }

    /// Inserts an instrument id into the cache, or keeps the cache as it is
    /// when the id is already there (the cached instrument is replaced).
    pub fn upsert_instrument(&mut self, id: String)
        ensures
            final(self).client_id == old(self).client_id,
            final(self).product_type == old(self).product_type,
            final(self).connected == old(self).connected,
            final(self).task_count == old(self).task_count,
            id_texts(final(self).instrument_ids@) == spec_upsert(id_texts(old(self).instrument_ids@), id@),
    {
        let found = find_instrument(&self.instrument_ids, id.as_str());
        match found {
            Some(i) => {
                proof {
                    assert(id_texts(self.instrument_ids@)[i as int] == id@);
                }
            },
            None => {
                proof {
                    assert(!id_texts(self.instrument_ids@).contains(id@));
                }
                let ghost before = self.instrument_ids@;
                self.instrument_ids.push(id);
                proof {
                    assert(id_texts(self.instrument_ids@) =~= id_texts(before).push(
                        self.instrument_ids@.last()@,
                    ));
                }
            },
        }
    }

    /// Where a request for the instrument `target` is answered from: the
    /// cache when it holds the instrument, else a fetch of all instruments.
    pub fn instrument_request_source(&self, target: &str) -> (r: InstrumentRequestSource)
        ensures
            match r {
                InstrumentRequestSource::Cached(i) => i < self.instrument_ids@.len()
                    && self.instrument_ids@[i as int]@ == target@,
                InstrumentRequestSource::FetchAll => !id_texts(self.instrument_ids@).contains(target@),
            },
    {
        match find_instrument(&self.instrument_ids, target) {
            Some(i) => InstrumentRequestSource::Cached(i),
            None => {
                proof {
                    if id_texts(self.instrument_ids@).contains(target@) {
                        let k = choose|k: int| 0 <= k < self.instrument_ids@.len()
                            && id_texts(self.instrument_ids@)[k] == target@;
                        assert(self.instrument_ids@[k]@ == target@);
                    }
                }
                InstrumentRequestSource::FetchAll
            },
        }
    }
}

/// Upserting an instrument id caches it, and upserting the same id again
/// leaves the cache as it is.
pub proof fn lemma_upsert_idempotent(ids: Seq<Seq<char>>, id: Seq<char>)
    ensures
        spec_upsert(ids, id).contains(id),
        spec_upsert(spec_upsert(ids, id), id) == spec_upsert(ids, id),
{
    if !ids.contains(id) {
        assert(ids.push(id)[ids.len() as int] == id);
    }
}

} // verus!
