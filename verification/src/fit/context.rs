//! The context solver's search: the largest context whose KV footprint fits
//! the per-stream budget, found by binary search over a KV-size function that
//! is monotone non-decreasing in the context.

use vstd::prelude::*;

verus! {

/// The upper bound of the context search (tokens). Far beyond any advertised
/// context; bounds the binary search.
pub const CTX_SEARCH_CAP: u32 = 16_777_216;

/// Tokens per paged KV block.
pub const BLOCK_TOKENS: u32 = 32;

/// Metadata bytes billed per paged KV block.
pub const BLOCK_METADATA_BYTES: u64 = 96;

/// The KV footprint with the paged block-table metadata added when `paged`:
/// one metadata record per started block of `BLOCK_TOKENS` tokens, the sum
/// saturating at `u64::MAX`.
pub fn add_paged(bytes: u64, ctx: u32, paged: bool) -> (r: u64)
    ensures
        !paged ==> r == bytes,
        paged ==> r as int == (if bytes + (ctx as int + 31) / 32 * 96 > u64::MAX {
            u64::MAX as int
        } else {
            bytes + (ctx as int + 31) / 32 * 96
        }),
{
    if !paged {
        return bytes;
    }
    let blocks = (ctx as u64 + 31) / 32;
    bytes.saturating_add(blocks * BLOCK_METADATA_BYTES)
}

/// The KV footprint of one sequence, and whether the model's layout was
/// unknown (every layer then priced as global attention).
#[derive(Clone, Copy, PartialEq, Eq, Debug, Structural)]
pub struct KvSizing {
    /// Bytes.
    pub bytes: u64,
    /// No per-layer classification was available.
    pub layout_unknown: bool,
}

/// The context ceilings at fp16, 8-bit and 4-bit KV, side by side.
#[derive(Clone, Copy, PartialEq, Eq, Debug, Structural)]
pub struct ContextCeilings {
    /// Maximum context at fp16 KV.
    pub max_fp16: u64,
    /// Maximum context at 8-bit KV.
    pub max_kv8: u64,
    /// Maximum context at 4-bit KV.
    pub max_kv4: u64,
}

/// Binary search for the largest `ctx` in `0..=cap` whose KV footprint
/// `kv_at(ctx)` is within `budget`. The result `r` was seen to fit (unless it
/// is 0) and `r + 1` was seen not to (unless `r` is `cap`), so for a
/// deterministic, monotone non-decreasing `kv_at` it is exactly the largest
/// fitting context.
pub fn max_fitting_ctx<F: Fn(u32) -> u64>(budget: u64, cap: u32, kv_at: F) -> (r: u32)
    requires
        forall|c: u32| #[trigger] kv_at.requires((c,)),
    ensures
        r <= cap,
        r > 0 ==> exists|b: u64| #[trigger] kv_at.ensures((r,), b) && b <= budget,
        r < cap ==> exists|b: u64| #[trigger] kv_at.ensures(((r + 1) as u32,), b) && b > budget,
{
    let mut lo: u32 = 0;
    let mut hi: u32 = cap;
    while lo < hi
        invariant
            lo <= hi <= cap,
            forall|c: u32| #[trigger] kv_at.requires((c,)),
            lo > 0 ==> exists|b: u64| #[trigger] kv_at.ensures((lo,), b) && b <= budget,
            hi < cap ==> exists|b: u64| #[trigger] kv_at.ensures(((hi + 1) as u32,), b) && b > budget,
        decreases hi - lo,
    {
        let gap = hi - lo;
        let mid = lo + gap / 2 + gap % 2;
        let bytes = kv_at(mid);
        if bytes <= budget {
            lo = mid;
        } else {
            hi = mid - 1;
            assert(kv_at.ensures(((hi + 1) as u32,), bytes));
        }
    }
    lo
}

/// For a deterministic KV-size function that is monotone non-decreasing in
/// the context, a result meeting the search's guarantee is the largest
/// context in `0..=cap` that fits: every fitting context is at most it, and it
/// fits itself unless it is 0.
pub proof fn lemma_search_finds_the_largest_fit<F: Fn(u32) -> u64>(
    kv_at: F,
    size: spec_fn(u32) -> u64,
    budget: u64,
    cap: u32,
    r: u32,
)
    requires
        forall|c: u32, b: u64| #[trigger] kv_at.ensures((c,), b) ==> b == size(c),
        forall|a: u32, c: u32| a <= c ==> #[trigger] size(a) <= #[trigger] size(c),
        r <= cap,
        r > 0 ==> exists|b: u64| #[trigger] kv_at.ensures((r,), b) && b <= budget,
        r < cap ==> exists|b: u64| #[trigger] kv_at.ensures(((r + 1) as u32,), b) && b > budget,
    ensures
        r > 0 ==> size(r) <= budget,
        forall|c: u32| c <= cap && #[trigger] size(c) <= budget ==> c <= r,
{
    assert forall|c: u32| c <= cap && #[trigger] size(c) <= budget implies c <= r by {
        if c > r {
            let b = choose|b: u64| #[trigger] kv_at.ensures(((r + 1) as u32,), b) && b > budget;
            assert(size((r + 1) as u32) <= size(c));
        }
    }
}

/// A KV precision whose footprint is nowhere larger than another's fits at
/// least as much context: of two largest fits found under the same budget,
/// the one for the smaller sizes is the larger (so the 4-bit ceiling is at
/// least the 8-bit one, which is at least the fp16 one).
pub proof fn lemma_smaller_kv_fits_more<F: Fn(u32) -> u64, G: Fn(u32) -> u64>(
    small_at: F,
    small: spec_fn(u32) -> u64,
    large_at: G,
    large: spec_fn(u32) -> u64,
    budget: u64,
    cap: u32,
    r_small: u32,
    r_large: u32,
)
    requires
        forall|c: u32, b: u64| #[trigger] small_at.ensures((c,), b) ==> b == small(c),
        forall|c: u32, b: u64| #[trigger] large_at.ensures((c,), b) ==> b == large(c),
        forall|a: u32, c: u32| a <= c ==> #[trigger] small(a) <= #[trigger] small(c),
        forall|a: u32, c: u32| a <= c ==> #[trigger] large(a) <= #[trigger] large(c),
        forall|c: u32| #[trigger] small(c) <= large(c),
        r_small <= cap,
        r_small > 0 ==> exists|b: u64| #[trigger] small_at.ensures((r_small,), b) && b <= budget,
        r_small < cap ==> exists|b: u64| #[trigger] small_at.ensures(((r_small + 1) as u32,), b) && b
            > budget,
        r_large <= cap,
        r_large > 0 ==> exists|b: u64| #[trigger] large_at.ensures((r_large,), b) && b <= budget,
        r_large < cap ==> exists|b: u64| #[trigger] large_at.ensures(((r_large + 1) as u32,), b) && b
            > budget,
    ensures
        r_large <= r_small,
{
    lemma_search_finds_the_largest_fit(small_at, small, budget, cap, r_small);
    lemma_search_finds_the_largest_fit(large_at, large, budget, cap, r_large);
    if r_large > 0 {
        assert(small(r_large) <= large(r_large));
    }
}

} // verus!
