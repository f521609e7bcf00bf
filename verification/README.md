# nautilus_adapters

Verified venue-adapter logic for the Architect (AX Exchange) and Binance
integrations of NautilusTrader, written in Verus.

## Layout

- `src/binance/common/sbe/`: the SBE read cursor (`cursor.rs`), the offsets
  of repeating-group entries (`layout.rs`) and the Spot schema's template
  ids and enumerations (`spot.rs`).
- `src/binance/spot/http/`: the Spot response models, the decode error, the
  decoders (`parse.rs`) and the properties that hold across them
  (`properties.rs`). Each decoder's contract states, over the byte offsets of
  the SBE layout, which error comes first for a buffer and, on success, where
  every field of the result was read.
- `src/binance/futures/data.rs`: the Futures data client's decisions: the
  product types it serves, the stream names of its subscriptions, what it
  does with each WebSocket message, and its connection lifecycle.
- `src/architect/`: environments and enumerations, HTTP models and request
  builders, errors and their texts, the report fields of HTTP payloads, and
  the market data feed handler's routing and loop decisions.
- `src/model/`: the trading-domain enumerations and bar specification that
  the adapters produce.
- `src/text.rs`: decimal text of integers and whitespace trimming.
- `app/`: the library's types with their serde, strum and thiserror derives,
  the payloads that are only deserialized, and the JSON glue around the
  verified routing.
- `tests/`: tests of the library on concrete buffers and payloads.
