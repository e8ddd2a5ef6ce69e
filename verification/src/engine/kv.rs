//! The `KvPool` trait surface and the interim contiguous pool.
//!
//! Everything above the KV seam is written against [`KvPool`], so a paged pool
//! can replace [`ContiguousKvPool`] without changing a caller. The contiguous
//! pool is single-sequence with no sharing: `lookup_prefix` returns `None` and
//! `seal` always frees. It never reserves more bytes than the pool was carved
//! with, and a rejected admission always reports the exact largest admissible
//! token count.

use std::collections::BTreeMap;

use vstd::prelude::*;

use crate::ids::{PrefixHashChain, SeqId};
use crate::text::{nat_decimal, push_str, push_u64};

verus! {

broadcast use vstd::std_specs::btree::group_btree_axioms;

/// A prefix hash chain used for cache lookup; one definition shared with the
/// identifier module.
pub type HashChain = PrefixHashChain;

/// An opaque reference to a filled KV block appended to a sequence.
#[derive(Clone, Copy, PartialEq, Eq, Hash, Debug, Structural)]
pub struct BlockRef(pub u64);

/// A successful KV reservation covering `prompt + max_tokens` for a sequence.
#[derive(Clone, Copy, PartialEq, Eq, Debug, Structural)]
pub struct Reservation {
    /// The sequence the reservation is for.
    pub seq: SeqId,
    /// Tokens reserved (`prompt + max_tokens`).
    pub tokens_reserved: usize,
}

/// A rejected admission, carrying the largest admissible token count at
/// current occupancy.
#[derive(Clone, Copy, PartialEq, Eq, Debug, Structural)]
pub struct Rejection {
    /// The largest `max_tokens` that would be admitted right now.
    pub max_admissible: usize,
}

/// The longest cached run matching a prefix hash chain. The contiguous pool
/// never returns one.
#[derive(Clone, PartialEq, Eq, Debug, Structural)]
pub struct CachedRun {
    /// Number of prompt tokens served from cache.
    pub matched_tokens: usize,
}

/// A KV reclaim policy.
#[derive(Clone, Copy, PartialEq, Eq, Debug, Structural)]
pub enum EvictPolicy {
    /// Evict runs past their TTL.
    Ttl,
    /// Evict the lowest-scored runs under memory pressure.
    Pressure,
}

/// The outcome of one [`KvPool::evict`] pass.
#[derive(Clone, Copy, PartialEq, Eq, Debug, Structural)]
pub struct EvictReport {
    /// Tokens of cached state reclaimed.
    pub reclaimed_tokens: usize,
    /// Cached runs evicted.
    pub evicted_runs: usize,
}

impl Default for EvictReport {
    /// Nothing reclaimed.
    fn default() -> (r: EvictReport)
        ensures
            r.reclaimed_tokens == 0 && r.evicted_runs == 0,
    {
        EvictReport { reclaimed_tokens: 0, evicted_runs: 0 }
    }
}

/// Pool occupancy and hit-rate statistics.
#[derive(Clone, Copy, PartialEq, Eq, Debug, Structural)]
pub struct KvStats {
    /// Total token capacity of the pool.
    pub tokens_total: usize,
    /// Tokens currently reserved by active sequences.
    pub tokens_reserved: usize,
    /// Tokens free for new admissions.
    pub tokens_free: usize,
    /// Number of active sequences.
    pub sequences_active: usize,
    /// Cumulative prompt tokens served from cache.
    pub prefix_hit_tokens: u64,
    /// Cumulative prompt tokens seen.
    pub prompt_tokens: u64,
}

impl Default for KvStats {
    /// All counters zero.
    fn default() -> (r: KvStats)
        ensures
            r.tokens_total == 0 && r.tokens_reserved == 0 && r.tokens_free == 0
                && r.sequences_active == 0 && r.prefix_hit_tokens == 0 && r.prompt_tokens == 0,
    {
        KvStats {
            tokens_total: 0,
            tokens_reserved: 0,
            tokens_free: 0,
            sequences_active: 0,
            prefix_hit_tokens: 0,
            prompt_tokens: 0,
        }
    }
}

/// An error appending to a sequence's KV table.
#[derive(Clone, Copy, PartialEq, Eq, Debug, Structural)]
pub enum PoolError {
    /// The sequence was never admitted (or was already sealed).
    SequenceNotAdmitted(SeqId),
}

impl PoolError {
    /// The human-readable message:
    /// `sequence <id> was not admitted to the KV pool`.
    pub fn message(&self) -> (r: String)
        ensures
            r@ == (match self {
                PoolError::SequenceNotAdmitted(seq) => "sequence "@ + nat_decimal(seq.0 as nat)
                    + " was not admitted to the KV pool"@,
            }),
    {
        match self {
            PoolError::SequenceNotAdmitted(seq) => {
                let mut s = String::new();
                push_str(&mut s, "sequence ");
                push_u64(&mut s, seq.0);
                push_str(&mut s, " was not admitted to the KV pool");
                s
            },
        }
    }
}

/// The sum of the values of a finite map.
pub open spec fn map_total(m: Map<u64, usize>) -> nat
    decreases m.dom().len(),
    when m.dom().finite()
{
    if m.dom().len() == 0 {
        0
    } else {
        let k = m.dom().choose();
        m[k] as nat + map_total(m.remove(k))
    }
}

/// Removing any one key takes exactly its value out of the total.
pub proof fn lemma_map_total_remove(m: Map<u64, usize>, k: u64)
    requires
        m.dom().finite(),
        m.dom().contains(k),
    ensures
        map_total(m) == m[k] + map_total(m.remove(k)),
    decreases m.dom().len(),
{
    let c = m.dom().choose();
    assert(m.dom().len() > 0);
    if c != k {
        lemma_map_total_remove(m.remove(c), k);
        lemma_map_total_remove(m.remove(k), c);
        assert(m.remove(c).remove(k) =~= m.remove(k).remove(c));
    }
}

/// Inserting a key replaces its old value (if any) in the total.
pub proof fn lemma_map_total_insert(m: Map<u64, usize>, k: u64, v: usize)
    requires
        m.dom().finite(),
    ensures
        map_total(m.insert(k, v)) == v + map_total(m.remove(k)),
        m.dom().contains(k) ==> map_total(m) == m[k] + map_total(m.remove(k)),
{
    lemma_map_total_remove(m.insert(k, v), k);
    assert(m.insert(k, v).remove(k) =~= m.remove(k));
    if m.dom().contains(k) {
        lemma_map_total_remove(m, k);
    }
}

/// Each value is at most `usize::MAX`, so the total is bounded by the size.
proof fn lemma_map_total_bound(m: Map<u64, usize>)
    requires
        m.dom().finite(),
    ensures
        map_total(m) <= m.dom().len() * (usize::MAX as nat),
    decreases m.dom().len(),
{
    if m.dom().len() > 0 {
        let k = m.dom().choose();
        lemma_map_total_bound(m.remove(k));
        assert(map_total(m) == m[k] + map_total(m.remove(k)));
        assert(m.dom().len() * (usize::MAX as nat) == (m.dom().len() - 1) * (usize::MAX as nat)
            + usize::MAX) by (nonlinear_arith)
            requires
                m.dom().len() >= 1,
        ;
    }
}

/// Integer keys are totally ordered, so the ordered map behaves as its
/// specification says.
proof fn lemma_u64_keys_ordered()
    ensures
        vstd::laws_cmp::obeys_cmp::<u64>(),
        vstd::std_specs::btree::key_obeys_cmp_spec::<u64>(),
{
    broadcast use vstd::laws_cmp::group_laws_cmp;

}

/// `min(n, usize::MAX)`.
pub open spec fn clamp_usize(n: nat) -> usize {
    if n > usize::MAX {
        usize::MAX
    } else {
        n as usize
    }
}

/// `a * b`, clamped to `u64::MAX` (`u64::saturating_mul`).
pub open spec fn sat_mul(a: nat, b: nat) -> u64 {
    if a * b > u64::MAX {
        u64::MAX
    } else {
        (a * b) as u64
    }
}

/// `a * b`, clamped to `u64::MAX`.
fn saturating_mul_u64(a: u64, b: u64) -> (r: u64)
    ensures
        r == sat_mul(a as nat, b as nat),
{
    match a.checked_mul(b) {
        Some(p) => p,
        None => u64::MAX,
    }
}

/// `a - b`, clamped at zero.
pub open spec fn sat_sub(a: nat, b: nat) -> nat {
    if a >= b {
        (a - b) as nat
    } else {
        0
    }
}

/// The KV pool interface consumed by the scheduler and backend. The pool
/// never grows beyond its load-time byte contract; admission is the only
/// rejection point.
pub trait KvPool {
    /// The pool's internal invariant.
    spec fn inv(&self) -> bool;

    /// Reserves capacity covering `tokens_needed` (`prompt + max_tokens`) for a
    /// sequence, or rejects with the largest admissible `max_tokens` at
    /// current occupancy.
    fn request_admission(&mut self, seq: SeqId, tokens_needed: usize) -> (r: Result<Reservation, Rejection>)
        requires
            old(self).inv(),
        ensures
            final(self).inv(),
    ;

    /// The longest cached run matching a prefix hash chain.
    fn lookup_prefix(&self, chain: &HashChain) -> (r: Option<CachedRun>)
        requires
            self.inv(),
    ;

    /// Appends a filled block to a sequence's table.
    fn append(&mut self, seq: SeqId, block: BlockRef) -> (r: Result<(), PoolError>)
        requires
            old(self).inv(),
        ensures
            final(self).inv(),
    ;

    /// The sequence finished: donate its prefix run to cached state, or free
    /// everything when `donate == false`.
    fn seal(&mut self, seq: SeqId, donate: bool)
        requires
            old(self).inv(),
        ensures
            final(self).inv(),
    ;

    /// Runs one reclaim pass under the given policy.
    fn evict(&mut self, policy: EvictPolicy) -> (r: EvictReport)
        requires
            old(self).inv(),
        ensures
            final(self).inv(),
    ;

    /// Occupancy, hit rates and per-sequence totals.
    fn stats(&self) -> (r: KvStats)
        requires
            self.inv(),
    ;
}

/// The interim KV pool: one contiguous reservation per sequence, sized
/// `prompt + max_tokens`, carved from the model memory contract at load.
/// Reservations are keyed by sequence id; the running token total is kept
/// beside them.
pub struct ContiguousKvPool {
    pool_bytes: u64,
    bytes_per_token: u64,
    reserved: BTreeMap<u64, usize>,
    reserved_total: u128,
}

impl ContiguousKvPool {
    /// The pool size in bytes.
    pub closed spec fn spec_pool_bytes(&self) -> u64 {
        self.pool_bytes
    }

    /// The uniform KV rate, bytes per reserved token.
    pub closed spec fn spec_bytes_per_token(&self) -> u64 {
        self.bytes_per_token
    }

    /// The active reservations: sequence id to tokens reserved.
    pub closed spec fn reservations(&self) -> Map<u64, usize> {
        self.reserved@
    }

    /// Tokens reserved by active sequences (clamped to `usize::MAX`).
    pub open spec fn spec_reserved_tokens(&self) -> usize {
        clamp_usize(map_total(self.reservations()))
    }

    /// Bytes billed for the reserved tokens (saturating).
    pub open spec fn spec_reserved_bytes(&self) -> u64 {
        sat_mul(map_total(self.reservations()), self.spec_bytes_per_token() as nat)
    }

    /// Token capacity of the pool: unbounded at a zero rate, else
    /// `pool_bytes / bytes_per_token`.
    pub open spec fn spec_token_capacity(&self) -> usize {
        if self.spec_bytes_per_token() == 0 {
            usize::MAX
        } else {
            (self.spec_pool_bytes() / self.spec_bytes_per_token()) as usize
        }
    }

    /// Bytes still free for admissions.
    pub open spec fn spec_free_bytes(&self) -> u64 {
        sat_sub(self.spec_pool_bytes() as nat, self.spec_reserved_bytes() as nat) as u64
    }

    /// The pool's invariant: the running total matches the reservations, and
    /// at a non-zero rate the reserved tokens never bill more than the pool.
    pub closed spec fn wf(&self) -> bool {
        &&& self.reserved@.dom().finite()
        &&& self.reserved_total as nat == map_total(self.reserved@)
        &&& sat_mul(map_total(self.reserved@), self.bytes_per_token as nat) <= self.pool_bytes
    }

    /// Carves a fixed pool of `pool_bytes`, billing `bytes_per_token` per
    /// reserved token.
    pub fn new(pool_bytes: u64, bytes_per_token: u64) -> (r: ContiguousKvPool)
        ensures
            r.wf(),
            r.spec_reserved_bytes() <= r.spec_pool_bytes(),
            r.spec_pool_bytes() == pool_bytes,
            r.spec_bytes_per_token() == bytes_per_token,
            r.reservations() == Map::<u64, usize>::empty(),
    {
        let r = ContiguousKvPool {
            pool_bytes,
            bytes_per_token,
            reserved: BTreeMap::new(),
            reserved_total: 0,
        };
        assert(r.reserved@.dom() =~= Set::<u64>::empty());
        r
    }

    /// The pool size in bytes.
    pub fn pool_bytes(&self) -> (r: u64)
        ensures
            r == self.spec_pool_bytes(),
    {
        self.pool_bytes
    }

    /// Tokens reserved by active sequences.
    pub fn reserved_tokens(&self) -> (r: usize)
        requires
            self.wf(),
        ensures
            r == self.spec_reserved_tokens(),
    {
        if self.reserved_total > usize::MAX as u128 {
            usize::MAX
        } else {
            self.reserved_total as usize
        }
    }

    /// Bytes billed for the reserved tokens.
    pub fn reserved_bytes(&self) -> (r: u64)
        requires
            self.wf(),
        ensures
            r == self.spec_reserved_bytes(),
    {
        if self.bytes_per_token == 0 {
            0
        } else if self.reserved_total > u64::MAX as u128 {
            proof {
                vstd::arithmetic::mul::lemma_mul_inequality(
                    u64::MAX as int,
                    self.reserved_total as int,
                    self.bytes_per_token as int,
                );
            }
            u64::MAX
        } else {
            saturating_mul_u64(self.reserved_total as u64, self.bytes_per_token)
        }
    }

    /// Token capacity of the pool.
    fn token_capacity(&self) -> (r: usize)
        ensures
            r == self.spec_token_capacity(),
    {
        if self.bytes_per_token == 0 {
            usize::MAX
        } else {
            (self.pool_bytes / self.bytes_per_token) as usize
        }
    }

    /// Records `tokens` for `key`, replacing any earlier reservation, and keeps
    /// the running total in step.
    fn reserve(&mut self, key: u64, tokens: usize)
        requires
            old(self).wf(),
            sat_mul(
                map_total(old(self).reserved@.insert(key, tokens)),
                old(self).bytes_per_token as nat,
            ) <= old(self).pool_bytes,
        ensures
            final(self).wf(),
            final(self).reserved@ == old(self).reserved@.insert(key, tokens),
            final(self).pool_bytes == old(self).pool_bytes,
            final(self).bytes_per_token == old(self).bytes_per_token,
    {
        proof {
            lemma_u64_keys_ordered();
            lemma_map_total_insert(self.reserved@, key, tokens);
            lemma_map_total_bound(self.reserved@.insert(key, tokens));
        }
        let prev = self.reserved.insert(key, tokens);
        proof {
            assert(vstd::std_specs::btree::spec_btree_map_len(&self.reserved)
                == self.reserved@.len());
            assert(map_total(self.reserved@) <= (usize::MAX as nat) * (usize::MAX as nat)) by {
                assert(self.reserved@.dom().len() <= usize::MAX);
                assert(map_total(self.reserved@) <= self.reserved@.dom().len() * (
                usize::MAX as nat));
                assert(self.reserved@.dom().len() * (usize::MAX as nat) <= (usize::MAX as nat) * (
                usize::MAX as nat)) by (nonlinear_arith)
                    requires
                        self.reserved@.dom().len() <= usize::MAX,
                ;
            }
            assert((usize::MAX as nat) * (usize::MAX as nat) < u128::MAX) by (nonlinear_arith)
                requires
                    usize::MAX <= u64::MAX,
            ;
        }
        match prev {
            Some(p) => {
                self.reserved_total = self.reserved_total - p as u128 + tokens as u128;
            },
            None => {
                proof {
                    assert(old(self).reserved@.remove(key) =~= old(self).reserved@);
                }
                self.reserved_total = self.reserved_total + tokens as u128;
            },
        }
    }
}

impl KvPool for ContiguousKvPool {
    open spec fn inv(&self) -> bool {
        self.wf()
    }

    /// At a zero rate every admission succeeds. Otherwise the reservation is
    /// admitted exactly when its bytes fit in the free bytes; a rejection
    /// leaves the pool unchanged and reports `free_bytes / bytes_per_token`.
    fn request_admission(&mut self, seq: SeqId, tokens_needed: usize) -> (r: Result<Reservation, Rejection>)
        ensures
            final(self).spec_pool_bytes() == old(self).spec_pool_bytes(),
            final(self).spec_bytes_per_token() == old(self).spec_bytes_per_token(),
            r is Ok <==> (old(self).spec_bytes_per_token() == 0 || sat_mul(
                tokens_needed as nat,
                old(self).spec_bytes_per_token() as nat,
            ) <= old(self).spec_free_bytes()),
            r matches Ok(res) ==> res == (Reservation { seq, tokens_reserved: tokens_needed })
                && final(self).reservations() == old(self).reservations().insert(
                seq.0,
                tokens_needed,
            ),
            r matches Err(rej) ==> final(self).reservations() == old(self).reservations()
                && rej.max_admissible == (old(self).spec_free_bytes()
                / old(self).spec_bytes_per_token()) as usize,
            r is Ok && !old(self).reservations().contains_key(seq.0) ==> final(self).reservations().len()
                == old(self).reservations().len() + 1 && map_total(final(self).reservations())
                == map_total(old(self).reservations()) + tokens_needed,
            final(self).spec_reserved_bytes() <= final(self).spec_pool_bytes(),
    {
        proof {
            if !self.reserved@.dom().contains(seq.0) {
                lemma_admission_adds_its_tokens(self.reserved@, seq.0, tokens_needed);
            }
        }
        if self.bytes_per_token == 0 {
            self.reserve(seq.0, tokens_needed);
            return Ok(Reservation { seq, tokens_reserved: tokens_needed });
        }
        let free_bytes = self.pool_bytes.saturating_sub(self.reserved_bytes());
        let needed_bytes = saturating_mul_u64(tokens_needed as u64, self.bytes_per_token);
        if needed_bytes <= free_bytes {
            proof {
                lemma_admission_stays_within_pool(
                    self.reserved@,
                    seq.0,
                    tokens_needed,
                    self.pool_bytes,
                    self.bytes_per_token,
                );
            }
            self.reserve(seq.0, tokens_needed);
            Ok(Reservation { seq, tokens_reserved: tokens_needed })
        } else {
            Err(Rejection { max_admissible: (free_bytes / self.bytes_per_token) as usize })
        }
    }

    /// The contiguous pool shares no prefixes.
    fn lookup_prefix(&self, chain: &HashChain) -> (r: Option<CachedRun>)
        ensures
            r is None,
    {
        None
    }

    /// The contiguous reservation already covers an admitted sequence; a
    /// sequence that is not admitted is an error. The pool is unchanged.
    fn append(&mut self, seq: SeqId, block: BlockRef) -> (r: Result<(), PoolError>)
        ensures
            *final(self) == *old(self),
            final(self).spec_reserved_bytes() <= final(self).spec_pool_bytes(),
            r is Ok <==> old(self).reservations().contains_key(seq.0),
            r matches Err(e) ==> e == PoolError::SequenceNotAdmitted(seq),
    {
        proof {
            lemma_u64_keys_ordered();
        }
        if self.reserved.contains_key(&seq.0) {
            Ok(())
        } else {
            Err(PoolError::SequenceNotAdmitted(seq))
        }
    }

    /// Always frees the sequence's reservation, whatever `donate` says.
    fn seal(&mut self, seq: SeqId, donate: bool)
        ensures
            final(self).spec_pool_bytes() == old(self).spec_pool_bytes(),
            final(self).spec_bytes_per_token() == old(self).spec_bytes_per_token(),
            final(self).reservations() == old(self).reservations().remove(seq.0),
            final(self).spec_reserved_bytes() <= final(self).spec_pool_bytes(),
    {
        proof {
            lemma_u64_keys_ordered();
            if self.reserved@.dom().contains(seq.0) {
                lemma_map_total_remove(self.reserved@, seq.0);
            }
        }
        let prev = self.reserved.remove(&seq.0);
        match prev {
            Some(p) => {
                self.reserved_total = self.reserved_total - p as u128;
            },
            None => {
                proof {
                    assert(old(self).reserved@.remove(seq.0) =~= old(self).reserved@);
                }
            },
        }
        proof {
            vstd::arithmetic::mul::lemma_mul_inequality(
                map_total(self.reserved@) as int,
                map_total(old(self).reserved@) as int,
                self.bytes_per_token as int,
            );
        }
    }

    /// Nothing to reclaim: the pool is unchanged and the report is zero.
    fn evict(&mut self, policy: EvictPolicy) -> (r: EvictReport)
        ensures
            *final(self) == *old(self),
            final(self).spec_reserved_bytes() <= final(self).spec_pool_bytes(),
            r.reclaimed_tokens == 0 && r.evicted_runs == 0,
    {
        EvictReport::default()
    }

    /// Capacity, reserved and free tokens, and the number of active sequences.
    fn stats(&self) -> (r: KvStats)
        ensures
            r.tokens_total == self.spec_token_capacity(),
            r.tokens_reserved == self.spec_reserved_tokens(),
            r.tokens_free == sat_sub(
                self.spec_token_capacity() as nat,
                self.spec_reserved_tokens() as nat,
            ),
            r.sequences_active == self.reservations().len(),
            r.prefix_hit_tokens == 0,
            r.prompt_tokens == 0,
            self.spec_bytes_per_token() > 0 && self.spec_pool_bytes() < u64::MAX
                && self.spec_pool_bytes() / self.spec_bytes_per_token() <= usize::MAX ==> r.tokens_reserved
                * self.spec_bytes_per_token() <= self.spec_pool_bytes() && r.tokens_reserved
                <= r.tokens_total,
    {
        proof {
            lemma_u64_keys_ordered();
            if self.spec_bytes_per_token() > 0 && self.spec_pool_bytes() < u64::MAX
                && self.spec_pool_bytes() / self.spec_bytes_per_token() <= usize::MAX {
                lemma_stats_within_pool(self);
            }
        }
        let tokens_total = self.token_capacity();
        let tokens_reserved = self.reserved_tokens();
        KvStats {
            tokens_total,
            tokens_reserved,
            tokens_free: tokens_total.saturating_sub(tokens_reserved),
            sequences_active: self.reserved.len(),
            prefix_hit_tokens: 0,
            prompt_tokens: 0,
        }
    }
}

/// An admission that fits in the free bytes keeps the billed bytes within the
/// pool.
proof fn lemma_admission_stays_within_pool(
    m: Map<u64, usize>,
    key: u64,
    tokens: usize,
    pool_bytes: u64,
    bpt: u64,
)
    requires
        m.dom().finite(),
        bpt > 0,
        sat_mul(map_total(m), bpt as nat) <= pool_bytes,
        sat_mul(tokens as nat, bpt as nat) <= sat_sub(
            pool_bytes as nat,
            sat_mul(map_total(m), bpt as nat) as nat,
        ),
    ensures
        sat_mul(map_total(m.insert(key, tokens)), bpt as nat) <= pool_bytes,
{
    lemma_map_total_insert(m, key, tokens);
    if pool_bytes < u64::MAX {
        let t = map_total(m);
        if !m.dom().contains(key) {
            assert(m.remove(key) =~= m);
        }
        assert(t * bpt <= u64::MAX);
        assert(tokens as nat * bpt as nat <= u64::MAX);
        let rest = map_total(m.remove(key));
        assert(rest <= t);
        assert((tokens + rest) * bpt <= tokens * bpt + t * bpt) by (nonlinear_arith)
            requires
                rest <= t,
        ;
    }
}

/// The billed bytes never exceed the pool: exactly so whenever the pool is
/// below `u64::MAX` (the billing saturates there).
pub proof fn lemma_pool_never_overcommits(p: &ContiguousKvPool)
    requires
        p.wf(),
    ensures
        p.spec_reserved_bytes() <= p.spec_pool_bytes(),
        p.spec_pool_bytes() < u64::MAX ==> map_total(p.reservations())
            * p.spec_bytes_per_token() <= p.spec_pool_bytes(),
{
}

/// What `stats()` reports stays within the pool: the reserved tokens, billed
/// at the pool's rate, fit in its bytes, and never exceed its token capacity
/// (for a pool below `u64::MAX` bytes whose token capacity fits a `usize`).
pub proof fn lemma_stats_within_pool(p: &ContiguousKvPool)
    requires
        p.wf(),
        p.spec_bytes_per_token() > 0,
        p.spec_pool_bytes() < u64::MAX,
        p.spec_pool_bytes() / p.spec_bytes_per_token() <= usize::MAX,
    ensures
        p.spec_reserved_tokens() * p.spec_bytes_per_token() <= p.spec_pool_bytes(),
        p.spec_reserved_tokens() <= p.spec_token_capacity(),
{
    let t = map_total(p.reservations());
    let b = p.spec_bytes_per_token() as nat;
    let pool = p.spec_pool_bytes() as nat;
    lemma_pool_never_overcommits(p);
    assert(t * b <= pool);
    let r = p.spec_reserved_tokens() as nat;
    assert(r <= t);
    assert(r * b <= t * b) by (nonlinear_arith)
        requires
            r <= t,
    ;
    vstd::arithmetic::div_mod::lemma_div_is_ordered((t * b) as int, pool as int, b as int);
    vstd::arithmetic::div_mod::lemma_div_multiples_vanish(t as int, b as int);
    assert(t * b == b * t) by (nonlinear_arith);
}

/// Admitting a sequence that holds no reservation adds exactly its tokens to
/// the reserved total and one to the active sequences, which is what
/// `stats()` then reports.
pub proof fn lemma_admission_adds_its_tokens(before: Map<u64, usize>, seq: u64, tokens: usize)
    requires
        before.dom().finite(),
        !before.dom().contains(seq),
    ensures
        map_total(before.insert(seq, tokens)) == map_total(before) + tokens,
        before.insert(seq, tokens).len() == before.len() + 1,
{
    lemma_map_total_insert(before, seq, tokens);
    assert(before.remove(seq) =~= before);
}

/// A rejection's `max_admissible` is exact: that many tokens would fit in the
/// free bytes, and one more would not.
pub proof fn lemma_max_admissible_is_exact(free_bytes: nat, bytes_per_token: nat)
    requires
        bytes_per_token > 0,
    ensures
        (free_bytes / bytes_per_token) * bytes_per_token <= free_bytes,
        (free_bytes / bytes_per_token + 1) * bytes_per_token > free_bytes,
{
    let q = free_bytes / bytes_per_token;
    let r = free_bytes % bytes_per_token;
    vstd::arithmetic::div_mod::lemma_fundamental_div_mod(
        free_bytes as int,
        bytes_per_token as int,
    );
    vstd::arithmetic::div_mod::lemma_mod_bound(free_bytes as int, bytes_per_token as int);
    assert(q * bytes_per_token <= free_bytes && (q + 1) * bytes_per_token > free_bytes)
        by (nonlinear_arith)
        requires
            free_bytes == bytes_per_token * q + r,
            0 <= r < bytes_per_token,
    ;
}

/// Sealing a sequence that was admitted into a pool where it had no
/// reservation gives back exactly the reservations from before the admission.
pub proof fn lemma_seal_undoes_admission(before: Map<u64, usize>, key: u64, tokens: usize)
    requires
        !before.dom().contains(key),
    ensures
        before.insert(key, tokens).remove(key) == before,
{
    assert(before.insert(key, tokens).remove(key) =~= before);
}

} // verus!
