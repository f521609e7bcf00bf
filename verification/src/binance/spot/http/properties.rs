//! Properties that hold across the Spot SBE decoders.

use vstd::prelude::*;

use super::{
    error::SbeDecodeError,
    models::BinanceCancelOrderResponse,
    parse::{
        cancel_open_item, cancel_open_orders_decoded, cancel_open_orders_scan, cancel_order_fields,
        cancel_order_scan, header_check, level_group_scan, level_item, trade_group_scan, trade_item,
    },
};
use crate::binance::common::sbe::{
    cursor::{group_header_scan, le_u16},
    spot::{SBE_SCHEMA_ID, SBE_SCHEMA_VERSION},
    layout::{item_start, lemma_item_start_stride, lemma_items_prefix},
};

verus! {

/// A response is accepted by the header check of its own template only:
/// every decoder expecting another template reports the response's template
/// as unknown.
pub proof fn lemma_header_selects_template(s: Seq<u8>, template: u16, other: u16)
    requires
        header_check(s, template) is None,
        other != template,
    ensures
        header_check(s, other) == Some(SbeDecodeError::UnknownTemplateId(template)),
{
}

/// Order book levels have a fixed stride: when a level group whose header is
/// at `p` reads, level `i` starts `i * block_length` bytes after the header.
pub proof fn lemma_level_offsets(s: Seq<u8>, p: int, i: nat)
    requires
        level_group_scan(s, p) is Ok,
        group_header_scan(s, p) matches Ok((_, n)) && i <= n,
    ensures
        group_header_scan(s, p) matches Ok((bl, _)) && item_start(level_item(s, bl as int), p + 6, i)
            == p + 6 + i * bl,
{
    let (bl, n) = group_header_scan(s, p).unwrap();
    let f = level_item(s, bl as int);
    assert forall|q: int| #[trigger] f(q) is Ok implies f(q) == Ok::<int, SbeDecodeError>(q + bl) by {}
    lemma_item_start_stride(f, p + 6, n as nat, bl as int, i);
}

/// Trades have a fixed stride: when a trade group whose header is at `p`
/// reads, trade `i` starts `i * block_length` bytes after the header.
pub proof fn lemma_trade_offsets(s: Seq<u8>, p: int, i: nat)
    requires
        trade_group_scan(s, p) is Ok,
        group_header_scan(s, p) matches Ok((_, n)) && i <= n,
    ensures
        group_header_scan(s, p) matches Ok((bl, _)) && item_start(trade_item(s, bl as int), p + 6, i)
            == p + 6 + i * bl,
{
    let (bl, n) = group_header_scan(s, p).unwrap();
    let f = trade_item(s, bl as int);
    assert forall|q: int| #[trigger] f(q) is Ok implies f(q) == Ok::<int, SbeDecodeError>(q + bl) by {}
    lemma_item_start_stride(f, p + 6, n as nat, bl as int, i);
}

/// Every entry of a cancel open orders response is a cancel order response
/// of its own: its embedded bytes pass the cancel order decoder, and the entry
/// holds exactly the fields that decoder reads from them.
pub proof fn lemma_cancel_open_entries_decode(
    s: Seq<u8>,
    v: Seq<BinanceCancelOrderResponse>,
    i: int,
)
    requires
        cancel_open_orders_scan(s) is None,
        cancel_open_orders_decoded(s, v),
        0 <= i < v.len(),
    ensures
        ({
            let q = item_start(cancel_open_item(s), 14, i as nat);
            let embedded = s.subrange(q + 2, q + 2 + le_u16(s, q));
            &&& cancel_order_scan(embedded) is None
            &&& cancel_order_fields(embedded, v[i])
        }),
{
    let f = cancel_open_item(s);
    let (_, n) = group_header_scan(s, 8).unwrap();
    lemma_items_prefix(f, 14, n as nat, i as nat);
    assert(cancel_order_fields(
        s.subrange(
            item_start(f, 14, i as nat) + 2,
            item_start(f, 14, i as nat) + 2 + le_u16(s, item_start(f, 14, i as nat)),
        ),
        v[i],
    ));
}

/// The message header is 8 bytes whose schema id, version and template id are
/// the little-endian `u16` values at offsets 4, 6 and 2. A short buffer is
/// reported first, then a wrong schema (whatever the version), then a wrong
/// version, then a wrong template; a header that passes all three is accepted.
pub proof fn lemma_header_check_order(s: Seq<u8>, template: u16)
    ensures
        s.len() < 8 ==> header_check(s, template) == Some(
            SbeDecodeError::BufferTooShort { expected: 8, actual: s.len() as usize },
        ),
        s.len() >= 8 && le_u16(s, 4) != SBE_SCHEMA_ID ==> header_check(s, template) == Some(
            SbeDecodeError::SchemaMismatch { expected: SBE_SCHEMA_ID, actual: le_u16(s, 4) as u16 },
        ),
        s.len() >= 8 && le_u16(s, 4) == SBE_SCHEMA_ID && le_u16(s, 6) != SBE_SCHEMA_VERSION
            ==> header_check(s, template) == Some(
            SbeDecodeError::VersionMismatch { expected: SBE_SCHEMA_VERSION, actual: le_u16(s, 6) as u16 },
        ),
        s.len() >= 8 && le_u16(s, 4) == SBE_SCHEMA_ID && le_u16(s, 6) == SBE_SCHEMA_VERSION && le_u16(s, 2)
            != template ==> header_check(s, template) == Some(
            SbeDecodeError::UnknownTemplateId(le_u16(s, 2) as u16),
        ),
        s.len() >= 8 && le_u16(s, 4) == SBE_SCHEMA_ID && le_u16(s, 6) == SBE_SCHEMA_VERSION && le_u16(s, 2)
            == template ==> header_check(s, template) is None,
{
}

} // verus!
