//! Decisions of the Architect market data feed handler: how incoming frames
//! and JSON messages are routed, which request each subscription command
//! sends, and when the handler hands out a message or stops.

use vstd::prelude::*;
use vstd::string::StringExecFns;
use std::collections::VecDeque;

use crate::architect::common::enums::{
    str_eq, ArchitectCandleWidth, ArchitectMarketDataLevel, ArchitectMdWsMessageType,
};

verus! {

/// Where a market data message goes, by its `t` field.
#[derive(Clone, Copy, Debug, PartialEq, Eq, Structural)]
pub enum MdMessageRoute {
    /// Parse as a heartbeat.
    Heartbeat,
    /// Parse as ticker statistics.
    Ticker,
    /// Parse as a trade.
    Trade,
    /// Parse as a candle.
    Candle,
    /// Parse as a level 1 book update.
    BookL1,
    /// Parse as a level 2 book update.
    BookL2,
    /// Parse as a level 3 book update.
    BookL3,
    /// Report an unknown message type.
    Unknown,
}

/// The route of a message whose type field is `msg_type`; `has_direction` is
/// whether the message has a `d` (direction) field.
pub open spec fn spec_route(msg_type: Seq<char>, has_direction: bool) -> MdMessageRoute {
    if msg_type == "h"@ {
        MdMessageRoute::Heartbeat
    } else if msg_type == "s"@ {
        if has_direction {
            MdMessageRoute::Trade
        } else {
            MdMessageRoute::Ticker
        }
    } else if msg_type == "t"@ {
        MdMessageRoute::Trade
    } else if msg_type == "c"@ {
        MdMessageRoute::Candle
    } else if msg_type == "1"@ {
        MdMessageRoute::BookL1
    } else if msg_type == "2"@ {
        MdMessageRoute::BookL2
    } else if msg_type == "3"@ {
        MdMessageRoute::BookL3
    } else {
        MdMessageRoute::Unknown
    }
}

/// Routes a market data message by its type field. Messages of type `s` are
/// trades when they carry a direction and ticker statistics otherwise.
pub fn route_md_message(msg_type: &str, has_direction: bool) -> (r: MdMessageRoute)
    ensures
        r == spec_route(msg_type@, has_direction),
{
    if str_eq(msg_type, "h") {
        MdMessageRoute::Heartbeat
    } else if str_eq(msg_type, "s") {
        // Differentiate ticker vs trade by presence of "d" (direction) field
        if has_direction {
            MdMessageRoute::Trade
        } else {
            MdMessageRoute::Ticker
        }
    } else if str_eq(msg_type, "t") {
        MdMessageRoute::Trade
    } else if str_eq(msg_type, "c") {
        MdMessageRoute::Candle
    } else if str_eq(msg_type, "1") {
        MdMessageRoute::BookL1
    } else if str_eq(msg_type, "2") {
        MdMessageRoute::BookL2
    } else if str_eq(msg_type, "3") {
        MdMessageRoute::BookL3
    } else {
        MdMessageRoute::Unknown
    }
}

/// The wire code of every market data message type is routed to the parser
/// of that type; only a ticker-coded message that carries a direction is
/// parsed as a trade.
pub proof fn lemma_route_follows_message_type(t: ArchitectMdWsMessageType, has_direction: bool)
    ensures
        spec_route(t.spec_code(), has_direction) == match t {
            ArchitectMdWsMessageType::Heartbeat => MdMessageRoute::Heartbeat,
            ArchitectMdWsMessageType::Ticker => if has_direction {
                MdMessageRoute::Trade
            } else {
                MdMessageRoute::Ticker
            },
            ArchitectMdWsMessageType::Trade => MdMessageRoute::Trade,
            ArchitectMdWsMessageType::Candle => MdMessageRoute::Candle,
            ArchitectMdWsMessageType::BookLevel1 => MdMessageRoute::BookL1,
            ArchitectMdWsMessageType::BookLevel2 => MdMessageRoute::BookL2,
            ArchitectMdWsMessageType::BookLevel3 => MdMessageRoute::BookL3,
        },
{
    reveal_strlit("h");
    reveal_strlit("s");
    reveal_strlit("t");
    reveal_strlit("c");
    reveal_strlit("1");
    reveal_strlit("2");
    reveal_strlit("3");
    let c = t.spec_code();
    assert(c.len() == 1);
    if c != "h"@ {
        assert(c[0] != 'h');
    }
    if c != "s"@ {
        assert(c[0] != 's');
    }
    if c != "t"@ {
        assert(c[0] != 't');
    }
    if c != "c"@ {
        assert(c[0] != 'c');
    }
    if c != "1"@ {
        assert(c[0] != '1');
    }
    if c != "2"@ {
        assert(c[0] != '2');
    }
}

/// Messages whose type field names no market data message type are reported
/// as unknown.
pub proof fn lemma_unknown_route(msg_type: Seq<char>, has_direction: bool)
    requires
        forall|t: ArchitectMdWsMessageType| #[trigger] t.spec_code() != msg_type,
    ensures
        spec_route(msg_type, has_direction) == MdMessageRoute::Unknown,
{
    assert(ArchitectMdWsMessageType::Heartbeat.spec_code() != msg_type);
    assert(ArchitectMdWsMessageType::Ticker.spec_code() != msg_type);
    assert(ArchitectMdWsMessageType::Trade.spec_code() != msg_type);
    assert(ArchitectMdWsMessageType::Candle.spec_code() != msg_type);
    assert(ArchitectMdWsMessageType::BookLevel1.spec_code() != msg_type);
    assert(ArchitectMdWsMessageType::BookLevel2.spec_code() != msg_type);
    assert(ArchitectMdWsMessageType::BookLevel3.spec_code() != msg_type);
}

/// The text of the error reported for a message of unknown type.
pub fn unknown_message_type_text(msg_type: &str) -> (r: String)
    ensures
        r@ == "Unknown message type: "@ + msg_type@,
{
    let mut text = "Unknown message type: ".to_owned();
    text.append(msg_type);
    text
}

/// Whether a parsed trade or book message is handed out converted to
/// domain data or as the raw venue message.
#[derive(Clone, Copy, Debug, PartialEq, Eq, Structural)]
pub enum MdEmission {
    /// The domain data built from the message.
    Converted,
    /// The raw venue message.
    Raw,
}

/// A trade or book message is converted when its instrument is cached and
/// the conversion succeeds; otherwise the raw message is handed out.
pub fn choose_emission(instrument_cached: bool, converted_ok: bool) -> (r: MdEmission)
    ensures
        r == (if instrument_cached && converted_ok {
            MdEmission::Converted
        } else {
            MdEmission::Raw
        }),
{
    if instrument_cached && converted_ok {
        MdEmission::Converted
    } else {
        MdEmission::Raw
    }
}

/// A subscription command for the market data stream.
#[derive(Clone, Debug)]
pub enum MdSubscriptionCommand {
    /// Subscribe to market data for a symbol.
    Subscribe { request_id: i64, symbol: String, level: ArchitectMarketDataLevel },
    /// Unsubscribe from market data for a symbol.
    Unsubscribe { request_id: i64, symbol: String },
    /// Subscribe to candle data for a symbol.
    SubscribeCandles { request_id: i64, symbol: String, width: ArchitectCandleWidth },
    /// Unsubscribe from candle data for a symbol.
    UnsubscribeCandles { request_id: i64, symbol: String, width: ArchitectCandleWidth },
}

/// The request sent to the venue for a subscription command.
#[derive(Clone, Debug)]
pub struct MdRequest {
    /// Request ID for correlation.
    pub request_id: i64,
    /// The request type.
    pub msg_type: String,
    /// Instrument symbol.
    pub symbol: String,
    /// Market data level, for a subscription.
    pub level: Option<ArchitectMarketDataLevel>,
    /// Candle width, for a candle subscription.
    pub width: Option<ArchitectCandleWidth>,
}

/// The request type of each command.
pub open spec fn spec_request_type(cmd: MdSubscriptionCommand) -> Seq<char> {
    match cmd {
        MdSubscriptionCommand::Subscribe { .. } => "subscribe"@,
        MdSubscriptionCommand::Unsubscribe { .. } => "unsubscribe"@,
        MdSubscriptionCommand::SubscribeCandles { .. } => "subscribe_candles"@,
        MdSubscriptionCommand::UnsubscribeCandles { .. } => "unsubscribe_candles"@,
    }
}

/// Builds the request that the handler sends for a subscription command.
pub fn md_request_for(cmd: &MdSubscriptionCommand) -> (r: MdRequest)
    ensures
        r.msg_type@ == spec_request_type(*cmd),
        match *cmd {
            MdSubscriptionCommand::Subscribe { request_id, symbol, level } => {
                &&& r.request_id == request_id
                &&& r.symbol@ == symbol@
                &&& r.level == Some(level)
                &&& r.width is None
            },
            MdSubscriptionCommand::Unsubscribe { request_id, symbol } => {
                &&& r.request_id == request_id
                &&& r.symbol@ == symbol@
                &&& r.level is None
                &&& r.width is None
            },
            MdSubscriptionCommand::SubscribeCandles { request_id, symbol, width } => {
                &&& r.request_id == request_id
                &&& r.symbol@ == symbol@
                &&& r.level is None
                &&& r.width == Some(width)
            },
            MdSubscriptionCommand::UnsubscribeCandles { request_id, symbol, width } => {
                &&& r.request_id == request_id
                &&& r.symbol@ == symbol@
                &&& r.level is None
                &&& r.width == Some(width)
            },
        },
{
    match cmd {
        MdSubscriptionCommand::Subscribe { request_id, symbol, level } => MdRequest {
            request_id: *request_id,
            msg_type: "subscribe".to_owned(),
            symbol: symbol.clone(),
            level: Some(*level),
            width: None,
        },
        MdSubscriptionCommand::Unsubscribe { request_id, symbol } => MdRequest {
            request_id: *request_id,
            msg_type: "unsubscribe".to_owned(),
            symbol: symbol.clone(),
            level: None,
            width: None,
        },
        MdSubscriptionCommand::SubscribeCandles { request_id, symbol, width } => MdRequest {
            request_id: *request_id,
            msg_type: "subscribe_candles".to_owned(),
            symbol: symbol.clone(),
            level: None,
            width: Some(*width),
        },
        MdSubscriptionCommand::UnsubscribeCandles { request_id, symbol, width } => MdRequest {
            request_id: *request_id,
            msg_type: "unsubscribe_candles".to_owned(),
            symbol: symbol.clone(),
            level: None,
            width: Some(*width),
        },
    }
}

/// The kinds of raw frame the WebSocket delivers.
#[derive(Clone, Copy, Debug, PartialEq, Eq, Structural)]
pub enum RawFrameKind {
    Text,
    Binary,
    Ping,
    Close,
    Other,
}

/// What the handler does with a raw frame other than a ping, which the
/// `next` loop answers itself.
#[derive(Clone, Copy, Debug, PartialEq, Eq, Structural)]
pub enum RawFrameAction {
    /// Hand out the reconnected notice.
    Reconnected,
    /// Parse the text as JSON and route it.
    ParseJson,
    /// Drop the frame.
    Ignore,
}

/// Decides what to do with a raw frame; `is_reconnect_signal` is whether a
/// text frame is the transport's reconnection notice. Only text frames carry
/// market data.
pub fn raw_frame_action(kind: RawFrameKind, is_reconnect_signal: bool) -> (r: RawFrameAction)
    ensures
        r == match kind {
            RawFrameKind::Text => if is_reconnect_signal {
                RawFrameAction::Reconnected
            } else {
                RawFrameAction::ParseJson
            },
            _ => RawFrameAction::Ignore,
        },
{
    match kind {
        RawFrameKind::Text => {
            if is_reconnect_signal {
                RawFrameAction::Reconnected
            } else {
                RawFrameAction::ParseJson
            }
        },
        _ => RawFrameAction::Ignore,
    }
}

/// An event observed by the handler's `next` loop while its queue is empty.
#[derive(Clone, Copy, Debug, PartialEq, Eq, Structural)]
pub enum FeedEvent {
    /// A command from the client arrived.
    Command,
    /// No input for the idle period.
    IdleTimeout,
    /// A raw frame of the given kind arrived.
    Frame(RawFrameKind),
    /// The raw stream ended.
    StreamClosed,
}

/// The next thing the handler's `next` loop does.
#[derive(Clone, Copy, Debug, PartialEq, Eq, Structural)]
pub enum FeedStep {
    /// Hand out the oldest queued message.
    DeliverQueued,
    /// Handle the command, then wait again.
    HandleCommand,
    /// Answer the ping with a pong carrying its payload, then wait again.
    AnswerPing,
    /// Process the frame, then wait again.
    ProcessFrame,
    /// Process the frame, then stop: the stop signal is set.
    ProcessFrameThenStop,
    /// Wait again.
    Continue,
    /// Stop and return nothing.
    Stop,
}

/// One decision of the feed handler's `next` loop.
pub open spec fn spec_next_feed_step(has_queued: bool, event: FeedEvent, stop_signal: bool) -> FeedStep {
    if has_queued {
        FeedStep::DeliverQueued
    } else {
        match event {
            FeedEvent::Command => FeedStep::HandleCommand,
            FeedEvent::IdleTimeout => if stop_signal {
                FeedStep::Stop
            } else {
                FeedStep::Continue
            },
            FeedEvent::Frame(RawFrameKind::Ping) => FeedStep::AnswerPing,
            FeedEvent::Frame(_) => if stop_signal {
                FeedStep::ProcessFrameThenStop
            } else {
                FeedStep::ProcessFrame
            },
            FeedEvent::StreamClosed => FeedStep::Stop,
        }
    }
}

/// One decision of the feed handler's `next` loop: queued messages are handed
/// out first; otherwise the observed event decides. Pings are answered at
/// once; the stop signal ends the loop after an idle period or after any
/// other frame.
pub fn next_feed_step(has_queued: bool, event: FeedEvent, stop_signal: bool) -> (r: FeedStep)
    ensures
        r == spec_next_feed_step(has_queued, event, stop_signal),
{
    if has_queued {
        return FeedStep::DeliverQueued;
    }
    match event {
        FeedEvent::Command => FeedStep::HandleCommand,
        FeedEvent::IdleTimeout => {
            if stop_signal {
                FeedStep::Stop
            } else {
                FeedStep::Continue
            }
        },
        FeedEvent::Frame(RawFrameKind::Ping) => FeedStep::AnswerPing,
        FeedEvent::Frame(_) => {
            if stop_signal {
                FeedStep::ProcessFrameThenStop
            } else {
                FeedStep::ProcessFrame
            }
        },
        FeedEvent::StreamClosed => FeedStep::Stop,
    }
}

/// The feed loop ends only when the raw stream has closed, or when the stop
/// signal is set after an idle period or a frame: without the stop signal and
/// with nothing queued, every frame other than a ping is processed and the
/// loop goes on waiting, whatever its kind (a close frame included, as the
/// transport reconnects).
pub proof fn lemma_feed_stops_only_on_close_or_signal(event: FeedEvent, stop_signal: bool)
    ensures
        spec_next_feed_step(false, event, stop_signal) == FeedStep::Stop ==> event
            == FeedEvent::StreamClosed || (stop_signal && event == FeedEvent::IdleTimeout),
        spec_next_feed_step(false, event, stop_signal) == FeedStep::ProcessFrameThenStop ==> stop_signal,
        (event matches FeedEvent::Frame(kind) && kind != RawFrameKind::Ping) ==> spec_next_feed_step(
            false,
            event,
            false,
        ) == FeedStep::ProcessFrame,
{
}

/// A queued message is always handed out before anything else is observed,
/// and once the stream has closed the loop stops with nothing queued.
pub proof fn lemma_queue_drains_first(event: FeedEvent, stop_signal: bool)
    ensures
        spec_next_feed_step(true, event, stop_signal) == FeedStep::DeliverQueued,
        spec_next_feed_step(false, FeedEvent::StreamClosed, stop_signal) == FeedStep::Stop,
{
}

/// The set of texts held by `v`.
pub open spec fn symbol_set(v: Seq<String>) -> Set<Seq<char>> {
    Set::new(|t: Seq<char>| exists|i: int| 0 <= i < v.len() && #[trigger] v[i]@ == t)
}

/// The symbols of the instruments the feed handler has cached: trades and
/// book updates of these symbols are converted to domain data.
#[derive(Clone, Debug)]
pub struct MdInstrumentCache {
    /// The cached symbols.
    pub symbols: Vec<String>,
}

impl MdInstrumentCache {
    /// An empty cache.
    pub fn new() -> (r: Self)
        ensures
            r.symbols@.len() == 0,
            symbol_set(r.symbols@) == Set::<Seq<char>>::empty(),
    {
        let r = MdInstrumentCache { symbols: Vec::new() };
        assert(symbol_set(r.symbols@) =~= Set::<Seq<char>>::empty());
        r
    }

    /// Whether an instrument with `symbol` is cached.
    pub fn contains(&self, symbol: &str) -> (r: bool)
        ensures
            r == symbol_set(self.symbols@).contains(symbol@),
    {
        let mut i: usize = 0;
        while i < self.symbols.len()
            invariant
                i <= self.symbols@.len(),
                forall|j: int| 0 <= j < i ==> #[trigger] self.symbols@[j]@ != symbol@,
            decreases self.symbols@.len() - i,
        {
            if str_eq(self.symbols[i].as_str(), symbol) {
                assert(self.symbols@[i as int]@ == symbol@);
                return true;
            }
            i = i + 1;
        }
        false
    }

    /// Caches the instrument with `symbol`, replacing one of the same symbol.
    pub fn update_instrument(&mut self, symbol: String)
        ensures
            symbol_set(final(self).symbols@) == symbol_set(old(self).symbols@).insert(symbol@),
    {
        if !self.contains(symbol.as_str()) {
            let ghost before = self.symbols@;
            self.symbols.push(symbol);
            proof {
                let s = self.symbols@.last()@;
                assert forall|t: Seq<char>| #[trigger] symbol_set(self.symbols@).contains(t) == symbol_set(
                    before,
                ).insert(s).contains(t) by {
                    if symbol_set(before).contains(t) {
                        let i = choose|i: int| 0 <= i < before.len() && #[trigger] before[i]@ == t;
                        assert(self.symbols@[i]@ == t);
                    }
                    if t == s {
                        assert(self.symbols@[before.len() as int]@ == t);
                    }
                    if symbol_set(self.symbols@).contains(t) {
                        let i = choose|i: int| 0 <= i < self.symbols@.len() && #[trigger] self.symbols@[i]@ == t;
                        if i < before.len() {
                            assert(before[i]@ == t);
                        }
                    }
                }
                assert(symbol_set(self.symbols@) =~= symbol_set(before).insert(s));
            }
        } else {
            assert(symbol_set(self.symbols@) =~= symbol_set(self.symbols@).insert(symbol@));
        }
    }

    /// Caches every instrument of `symbols`.
    pub fn initialize_instruments(&mut self, symbols: Vec<String>)
        ensures
            symbol_set(final(self).symbols@) == symbol_set(old(self).symbols@).union(symbol_set(symbols@)),
    {
        let ghost start = symbol_set(self.symbols@);
        let mut i: usize = 0;
        while i < symbols.len()
            invariant
                i <= symbols@.len(),
                symbol_set(self.symbols@) == start.union(symbol_set(symbols@.subrange(0, i as int))),
            decreases symbols@.len() - i,
        {
            let symbol = symbols[i].clone();
            self.update_instrument(symbol);
            proof {
                let next = symbols@.subrange(0, i + 1);
                let prev = symbols@.subrange(0, i as int);
                assert forall|t: Seq<char>| #[trigger] symbol_set(next).contains(t) == symbol_set(prev).insert(
                    symbols@[i as int]@,
                ).contains(t) by {
                    if symbol_set(next).contains(t) {
                        let k = choose|k: int| 0 <= k < next.len() && #[trigger] next[k]@ == t;
                        if k < i {
                            assert(prev[k]@ == t);
                        }
                    }
                    if symbol_set(prev).contains(t) {
                        let k = choose|k: int| 0 <= k < prev.len() && #[trigger] prev[k]@ == t;
                        assert(next[k]@ == t);
                    }
                    if t == symbols@[i as int]@ {
                        assert(next[i as int]@ == t);
                    }
                }
                assert(symbol_set(next) =~= symbol_set(prev).insert(symbols@[i as int]@));
                assert(symbol_set(self.symbols@) =~= start.union(symbol_set(next)));
            }
            i = i + 1;
        }
        assert(symbols@.subrange(0, symbols@.len() as int) =~= symbols@);
    }
}

/// The text of the `t` field of the JSON object that `text` holds, and
/// whether that object has a `d` field, as `serde_json` reads the text; `None`
/// when the text is not JSON, not an object, or its `t` field is no string.
pub uninterp spec fn json_md_type_field(text: Seq<char>) -> Option<(Seq<char>, bool)>;

/// `serde_json::from_str` into a `serde_json::Value`: the object's `t` string
/// field and whether it has a `d` field, or `None` when the text is not a JSON
/// object with a string `t` field.
#[verifier::external_body]
fn md_type_field(text: &str) -> (r: Option<(String, bool)>)
    ensures
        match r {
            Some((t, d)) => json_md_type_field(text@) == Some((t@, d)),
            None => json_md_type_field(text@) is None,
        },
{
    match serde_json::from_str::<serde_json::Value>(text) {
        Ok(serde_json::Value::Object(map)) => match map.get("t") {
            Some(serde_json::Value::String(t)) => Some((t.clone(), map.contains_key("d"))),
            _ => None,
        },
        _ => None,
    }
}

/// Routes the JSON text of a market data frame: a text that is not a JSON
/// object with a string `t` field gives nothing; otherwise the message is
/// routed by its type field and whether it has a `d` (direction) field.
pub fn classify_md_text(text: &str) -> (r: Option<MdMessageRoute>)
    ensures
        r == match json_md_type_field(text@) {
            Some((t, d)) => Some(spec_route(t, d)),
            None => None,
        },
{
    match md_type_field(text) {
        Some((t, d)) => Some(route_md_message(t.as_str(), d)),
        None => None,
    }
}

/// A command about the handler's WebSocket client.
#[derive(Clone, Copy, Debug, PartialEq, Eq, Structural)]
pub enum ClientCommand {
    /// A client was handed to the handler.
    SetClient,
    /// The handler was asked to disconnect.
    Disconnect,
}

/// What the handler does for a client command.
#[derive(Clone, Copy, Debug, PartialEq, Eq, Structural)]
pub enum ClientCommandAction {
    /// Keep the client that was handed over, replacing any held before.
    StoreClient,
    /// Take the held client out and disconnect it once.
    DisconnectClient,
    /// Nothing to do.
    Nothing,
}

/// Whether the handler holds a client after a client command, and what it
/// does: `SetClient` stores the client; `Disconnect` leaves none and
/// disconnects the one held, if any.
pub fn client_command_step(has_client: bool, cmd: ClientCommand) -> (r: (bool, ClientCommandAction))
    ensures
        r == match cmd {
            ClientCommand::SetClient => (true, ClientCommandAction::StoreClient),
            ClientCommand::Disconnect => if has_client {
                (false, ClientCommandAction::DisconnectClient)
            } else {
                (false, ClientCommandAction::Nothing)
            },
        },
{
    match cmd {
        ClientCommand::SetClient => (true, ClientCommandAction::StoreClient),
        ClientCommand::Disconnect => {
            if has_client {
                (false, ClientCommandAction::DisconnectClient)
            } else {
                (false, ClientCommandAction::Nothing)
            }
        },
    }
}

/// Whether a request can be sent: only with a client held.
///
/// # Errors
///
/// Returns "No WebSocket client available" when the handler holds no client.
pub fn check_client_available(has_client: bool) -> (r: Result<(), String>)
    ensures
        has_client ==> r is Ok,
        !has_client ==> (r matches Err(m) && m@ == "No WebSocket client available"@),
{
    if has_client {
        Ok(())
    } else {
        Err("No WebSocket client available".to_owned())
    }
}

/// The messages the feed handler has parsed and not yet handed out, oldest
/// first.
pub struct MdMessageQueue<T> {
    items: VecDeque<T>,
}

impl<T> MdMessageQueue<T> {
    /// The queued messages, oldest first.
    pub closed spec fn items(&self) -> Seq<T> {
        self.items@
    }

    /// An empty queue.
    pub fn new() -> (q: Self)
        ensures
            q.items() == Seq::<T>::empty(),
    {
        MdMessageQueue { items: VecDeque::new() }
    }

    /// Whether no message is queued.
    pub fn is_empty(&self) -> (r: bool)
        ensures
            r == (self.items().len() == 0),
    {
        self.items.len() == 0
    }

    /// Queues the messages parsed from one frame, in their order, after those
    /// already queued.
    pub fn extend(&mut self, messages: Vec<T>)
        ensures
            final(self).items() == old(self).items() + messages@,
    {
        let ghost start = self.items@;
        let ghost all = messages@;
        let mut messages = messages;
        let ghost mut k: int = 0;
        while messages.len() > 0
            invariant
                0 <= k <= all.len(),
                messages@ == all.subrange(k, all.len() as int),
                self.items@ == start + all.subrange(0, k),
            decreases messages@.len(),
        {
            let m = messages.remove(0);
            self.items.push_back(m);
            proof {
                assert(all.subrange(0, k + 1) =~= all.subrange(0, k).push(all[k]));
                assert(messages@ =~= all.subrange(k + 1, all.len() as int));
                k = k + 1;
            }
        }
        proof {
            assert(all.subrange(0, all.len() as int) =~= all);
        }
    }

    /// Hands out the oldest queued message, if any.
    pub fn pop_front(&mut self) -> (r: Option<T>)
        ensures
            old(self).items().len() == 0 ==> r is None && final(self).items() == old(self).items(),
            old(self).items().len() > 0 ==> r == Some(old(self).items()[0]) && final(self).items()
                == old(self).items().drop_first(),
    {
        let r = self.items.pop_front();
        proof {
            if r is Some {
                assert(self.items@ =~= old(self).items@.drop_first());
            }
        }
        r
    }
}

/// Queueing never overtakes: with messages queued, the oldest stays the next
/// one handed out however many are queued after it, and handing it out before
/// or after queueing more leaves the same messages in the same order.
pub proof fn lemma_queue_fifo<T>(queued: Seq<T>, more: Seq<T>)
    requires
        queued.len() > 0,
    ensures
        (queued + more)[0] == queued[0],
        (queued + more).drop_first() == queued.drop_first() + more,
{
    assert((queued + more).drop_first() =~= queued.drop_first() + more);
}

} // verus!
