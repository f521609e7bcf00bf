//! Offsets of repeating-group entries in an SBE buffer.
//!
//! A group entry is described by a scan function: from the offset where the
//! entry starts it gives the offset where the next one starts, or the error
//! met while reading the entry.

use vstd::prelude::*;

use crate::binance::spot::http::error::SbeDecodeError;

verus! {

/// Outcome of reading `n` consecutive entries starting at `q`.
pub open spec fn items_scan(
    f: spec_fn(int) -> Result<int, SbeDecodeError>,
    q: int,
    n: nat,
) -> Result<int, SbeDecodeError>
    decreases n,
{
    if n == 0 {
        Ok(q)
    } else {
        match f(q) {
            Err(e) => Err(e),
            Ok(q1) => items_scan(f, q1, (n - 1) as nat),
        }
    }
}

/// Offset of entry `i` of a group whose first entry starts at `base`.
pub open spec fn item_start(f: spec_fn(int) -> Result<int, SbeDecodeError>, base: int, i: nat) -> int
    decreases i,
{
    if i == 0 {
        base
    } else {
        match f(item_start(f, base, (i - 1) as nat)) {
            Ok(q) => q,
            Err(_) => base,
        }
    }
}

/// One step of a group read: if the entries before `i` were read and entry `i`
/// reads to `q1`, the rest of the group is read from `q1`.
pub proof fn lemma_items_step(
    f: spec_fn(int) -> Result<int, SbeDecodeError>,
    base: int,
    n: nat,
    i: nat,
)
    requires
        i < n,
        items_scan(f, base, n) == items_scan(f, item_start(f, base, i), (n - i) as nat),
    ensures
        f(item_start(f, base, i)) matches Ok(q1) ==> {
            &&& item_start(f, base, i + 1) == q1
            &&& items_scan(f, base, n) == items_scan(f, q1, (n - i - 1) as nat)
        },
        f(item_start(f, base, i)) matches Err(e) ==> items_scan(f, base, n) == Err::<int, SbeDecodeError>(e),
{
    assert(item_start(f, base, (i + 1) as nat) == match f(item_start(f, base, i)) {
        Ok(q) => q,
        Err(_) => base,
    });
}

/// When a whole group reads, every prefix of it reads: the rest of the group
/// is read from where entry `i` starts, and entry `i` itself reads.
pub proof fn lemma_items_prefix(
    f: spec_fn(int) -> Result<int, SbeDecodeError>,
    base: int,
    n: nat,
    i: nat,
)
    requires
        items_scan(f, base, n) is Ok,
        i <= n,
    ensures
        items_scan(f, base, n) == items_scan(f, item_start(f, base, i), (n - i) as nat),
        i < n ==> f(item_start(f, base, i)) is Ok,
    decreases i,
{
    if i > 0 {
        let k = (i - 1) as nat;
        lemma_items_prefix(f, base, n, k);
        assert(item_start(f, base, i) == match f(item_start(f, base, k)) {
            Ok(q) => q,
            Err(_) => base,
        });
    } else if n > 0 {
        assert(items_scan(f, base, n) == match f(base) {
            Err(e) => Err(e),
            Ok(q1) => items_scan(f, q1, (n - 1) as nat),
        });
    }
    if i < n {
        let q = item_start(f, base, i);
        assert(items_scan(f, q, (n - i) as nat) == match f(q) {
            Err(e) => Err(e),
            Ok(q1) => items_scan(f, q1, (n - i - 1) as nat),
        });
    }
}

/// In a group whose entries each span `w` bytes, entry `i` starts `i * w`
/// bytes after the first one.
pub proof fn lemma_item_start_stride(
    f: spec_fn(int) -> Result<int, SbeDecodeError>,
    base: int,
    n: nat,
    w: int,
    i: nat,
)
    requires
        forall|q: int| #[trigger] f(q) is Ok ==> f(q) == Ok::<int, SbeDecodeError>(q + w),
        items_scan(f, base, n) is Ok,
        i <= n,
    ensures
        item_start(f, base, i) == base + i * w,
    decreases i,
{
    if i > 0 {
        let k = (i - 1) as nat;
        lemma_item_start_stride(f, base, n, w, k);
        lemma_items_prefix(f, base, n, k);
        let q = item_start(f, base, k);
        assert(f(q) == Ok::<int, SbeDecodeError>(q + w));
        assert(item_start(f, base, i) == q + w);
        assert(base + k * w + w == base + i * w) by (nonlinear_arith)
            requires
                i == k + 1,
        ;
    } else {
        assert(i * w == 0) by (nonlinear_arith)
            requires
                i == 0,
        ;
    }
}

} // verus!
