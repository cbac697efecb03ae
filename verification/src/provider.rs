//! The acquisition layer's decisions: assembling the holder list, picking
//! the creation time, computing wallet ages, the retry and rate-limit
//! policy, and the three fact caches.
//!
//! The network calls themselves happen outside the library; every function
//! here takes what came back as plain values and is verified for every such
//! value.

use vstd::prelude::*;
use vstd::multiset::Multiset;
use vstd::arithmetic::div_mod::{
    lemma_div_is_ordered,
    lemma_div_pos_is_pos,
    lemma_fundamental_div_mod,
};
use crate::address::Address;
use crate::cache::{expired_count, Cache, CacheStats};
use crate::token::{TokenData, TokenHolder, TokenMetadata};

verus! {

/// One reported balance: the resolved owning wallet and the raw amount.
#[derive(Debug, Clone, Copy)]
pub struct HolderBalance {
    pub owner: Address,
    pub amount: u64,
}

/// A balance's share of the total supply in hundredths of a percent, rounded
/// down; zero when the supply is zero.
pub open spec fn pct_spec(amount: u64, supply: u64) -> int {
    if supply == 0 {
        0
    } else {
        let q = (amount * 10000) / (supply as int);
        if q > u64::MAX {
            u64::MAX as int
        } else {
            q
        }
    }
}

/// Computes a balance's share of supply in hundredths of a percent.
pub fn pct_of(amount: u64, supply: u64) -> (r: u64)
    ensures
        r as int == pct_spec(amount, supply),
{
    if supply == 0 {
        0
    } else {
        let q = (amount as u128) * 10000 / (supply as u128);
        if q > u64::MAX as u128 {
            u64::MAX
        } else {
            q as u64
        }
    }
}

/// The multiset of (owner, amount) pairs in a holder list.
pub open spec fn holder_pairs(s: Seq<TokenHolder>) -> Multiset<(Seq<u8>, u64)>
    decreases s.len(),
{
    if s.len() == 0 {
        Multiset::<(Seq<u8>, u64)>::empty()
    } else {
        holder_pairs(s.drop_last()).insert((s.last().address@, s.last().amount))
    }
}

/// The multiset of (owner, amount) pairs among reported balances that are
/// positive.
pub open spec fn raw_pairs(s: Seq<HolderBalance>) -> Multiset<(Seq<u8>, u64)>
    decreases s.len(),
{
    if s.len() == 0 {
        Multiset::<(Seq<u8>, u64)>::empty()
    } else {
        let rest = raw_pairs(s.drop_last());
        if s.last().amount > 0 {
            rest.insert((s.last().owner@, s.last().amount))
        } else {
            rest
        }
    }
}

/// Descending order by raw balance.
pub open spec fn sorted_desc(s: Seq<TokenHolder>) -> bool {
    forall|i: int, j: int|
        0 <= i < j < s.len() ==> (#[trigger] s[i]).amount >= (#[trigger] s[j]).amount
}

/// A built holder record: positive balance, percentage derived from the
/// balance, age not yet populated.
pub open spec fn holder_fields_ok(h: TokenHolder, supply: u64) -> bool {
    &&& h.amount > 0
    &&& h.percentage_bps as int == pct_spec(h.amount, supply)
    &&& h.wallet_age_days is None
}

proof fn lemma_holder_pairs_insert(s: Seq<TokenHolder>, p: int, h: TokenHolder)
    requires
        0 <= p <= s.len(),
    ensures
        holder_pairs(s.insert(p, h)) == holder_pairs(s).insert((h.address@, h.amount)),
    decreases s.len(),
{
    let x = s.insert(p, h);
    if p == s.len() {
        assert(x =~= s.push(h));
        assert(x.drop_last() =~= s);
        assert(x.last() == h);
    } else {
        assert(x.last() == s.last());
        assert(x.drop_last() =~= s.drop_last().insert(p, h));
        lemma_holder_pairs_insert(s.drop_last(), p, h);
        let m = holder_pairs(s.drop_last());
        let hp = (h.address@, h.amount);
        let lp = (s.last().address@, s.last().amount);
        assert(m.insert(hp).insert(lp) =~= m.insert(lp).insert(hp));
    }
}

proof fn lemma_raw_pairs_take_step(s: Seq<HolderBalance>, i: int)
    requires
        0 <= i < s.len(),
    ensures
        raw_pairs(s.take(i + 1)) == if s[i].amount > 0 {
            raw_pairs(s.take(i)).insert((s[i].owner@, s[i].amount))
        } else {
            raw_pairs(s.take(i))
        },
{
    assert(s.take(i + 1).drop_last() =~= s.take(i));
    assert(s.take(i + 1).last() == s[i]);
}

/// Builds the holder list from resolved balances: zero balances are
/// dropped, each percentage is computed against the supply known now, ages
/// start unset, and the result is sorted descending by raw balance, so that
/// index 0 is the largest holder.
pub fn build_holder_list(entries: &Vec<HolderBalance>, total_supply: u64) -> (r: Vec<TokenHolder>)
    ensures
        holder_pairs(r@) == raw_pairs(entries@),
        sorted_desc(r@),
        forall|k: int| 0 <= k < r@.len() ==> holder_fields_ok(#[trigger] r@[k], total_supply),
{
    let n = entries.len();
    let mut result: Vec<TokenHolder> = Vec::new();
    let mut i: usize = 0;
    proof {
        assert(entries@.take(0) =~= Seq::<HolderBalance>::empty());
        assert(raw_pairs(entries@.take(0)) =~= Multiset::<(Seq<u8>, u64)>::empty());
        assert(holder_pairs(result@) =~= Multiset::<(Seq<u8>, u64)>::empty());
    }
    while i < n
        invariant
            n == entries@.len(),
            0 <= i <= n,
            holder_pairs(result@) == raw_pairs(entries@.take(i as int)),
            sorted_desc(result@),
            forall|k: int|
                0 <= k < result@.len() ==> holder_fields_ok(#[trigger] result@[k], total_supply),
        decreases n - i,
    {
        proof {
            lemma_raw_pairs_take_step(entries@, i as int);
        }
        let e = entries[i];
        if e.amount > 0 {
            let h = TokenHolder {
                address: e.owner,
                amount: e.amount,
                percentage_bps: pct_of(e.amount, total_supply),
                wallet_age_days: None,
            };
            let len = result.len();
            let mut p: usize = 0;
            while p < len && result[p].amount >= h.amount
                invariant
                    len == result@.len(),
                    0 <= p <= len,
                    forall|j: int| 0 <= j < p ==> (#[trigger] result@[j]).amount >= h.amount,
                decreases len - p,
            {
                p += 1;
            }
            let ghost before = result@;
            proof {
                lemma_holder_pairs_insert(result@, p as int, h);
            }
            result.insert(p, h);
            proof {
                assert forall|a: int, b: int| 0 <= a < b < result@.len() implies (
                #[trigger] result@[a]).amount >= (#[trigger] result@[b]).amount by {
                    if b < p {
                        assert(result@[a] == before[a] && result@[b] == before[b]);
                    } else if a > p {
                        assert(result@[a] == before[a - 1] && result@[b] == before[b - 1]);
                    } else if a == p {
                        assert(result@[b] == before[b - 1]);
                        assert(before[b - 1].amount <= before[p as int].amount);
                        assert(before[p as int].amount < h.amount);
                    } else if b == p {
                        assert(result@[a] == before[a]);
                    } else {
                        assert(result@[a] == before[a]);
                        assert(result@[b] == before[b - 1]);
                        assert(before[b - 1].amount <= before[p as int].amount);
                        assert(before[p as int].amount < h.amount);
                    }
                }
            }
        }
        i += 1;
    }
    proof {
        assert(entries@.take(n as int) =~= entries@);
    }
    result
}

/// The sum of raw balances in a holder list.
pub open spec fn sum_amounts(s: Seq<TokenHolder>) -> int
    decreases s.len(),
{
    if s.len() == 0 {
        0
    } else {
        sum_amounts(s.drop_last()) + s.last().amount
    }
}

/// The sum of percentage shares in a holder list.
pub open spec fn sum_percentages(s: Seq<TokenHolder>) -> int
    decreases s.len(),
{
    if s.len() == 0 {
        0
    } else {
        sum_percentages(s.drop_last()) + s.last().percentage_bps
    }
}

proof fn lemma_sum_amounts_nonneg(s: Seq<TokenHolder>)
    ensures
        sum_amounts(s) >= 0,
    decreases s.len(),
{
    if s.len() > 0 {
        lemma_sum_amounts_nonneg(s.drop_last());
    }
}

proof fn lemma_div_superadditive(a: int, b: int, d: int)
    requires
        a >= 0,
        b >= 0,
        d > 0,
    ensures
        a / d + b / d <= (a + b) / d,
{
    lemma_fundamental_div_mod(a, d);
    lemma_fundamental_div_mod(b, d);
    let qa = a / d;
    let qb = b / d;
    lemma_div_pos_is_pos(a, d);
    lemma_div_pos_is_pos(b, d);
    assert(a + b >= d * (qa + qb)) by (nonlinear_arith)
        requires
            a == d * qa + a % d,
            b == d * qb + b % d,
            a % d >= 0,
            b % d >= 0,
    ;
    lemma_div_is_ordered(d * (qa + qb), a + b, d);
    assert(d * (qa + qb) / d == qa + qb) by (nonlinear_arith)
        requires
            d > 0,
    ;
}

proof fn lemma_sum_pct_bounded_aux(s: Seq<TokenHolder>, supply: u64)
    requires
        supply > 0,
        forall|k: int|
            0 <= k < s.len() ==> (#[trigger] s[k]).percentage_bps as int == pct_spec(
                s[k].amount,
                supply,
            ),
        sum_amounts(s) <= supply,
    ensures
        sum_percentages(s) <= sum_amounts(s) * 10000 / (supply as int),
    decreases s.len(),
{
    if s.len() == 0 {
        lemma_div_pos_is_pos(0, supply as int);
    } else {
        let rest = s.drop_last();
        let h = s.last();
        assert(forall|k: int| 0 <= k < rest.len() ==> rest[k] == s[k]);
        lemma_sum_amounts_nonneg(rest);
        assert(sum_amounts(rest) + h.amount == sum_amounts(s));
        lemma_sum_pct_bounded_aux(rest, supply);
        // The last holder's share cannot be clamped: its amount is at most
        // the supply, so its raw share is at most 10000.
        lemma_div_is_ordered(h.amount * 10000, (supply as int) * 10000, supply as int);
        assert((supply as int) * 10000 / (supply as int) == 10000) by (nonlinear_arith)
            requires
                supply > 0,
        ;
        assert(h.percentage_bps as int == h.amount * 10000 / (supply as int));
        lemma_div_superadditive(sum_amounts(rest) * 10000, h.amount * 10000, supply as int);
        assert(sum_amounts(rest) * 10000 + h.amount * 10000 == sum_amounts(s) * 10000)
            by (nonlinear_arith)
            requires
                sum_amounts(rest) + h.amount == sum_amounts(s),
        ;
    }
}

/// Percentage shares never overstate the whole: when the recorded balances
/// sum to at most the supply, the shares sum to at most 100 percent, the
/// top holder's included.
pub proof fn lemma_percentages_sum_bounded(s: Seq<TokenHolder>, supply: u64)
    requires
        supply > 0,
        forall|k: int|
            0 <= k < s.len() ==> (#[trigger] s[k]).percentage_bps as int == pct_spec(
                s[k].amount,
                supply,
            ),
        sum_amounts(s) <= supply,
    ensures
        sum_percentages(s) <= 10000,
{
    lemma_sum_pct_bounded_aux(s, supply);
    lemma_sum_amounts_nonneg(s);
    lemma_div_is_ordered(sum_amounts(s) * 10000, (supply as int) * 10000, supply as int);
    assert(sum_amounts(s) * 10000 <= (supply as int) * 10000) by (nonlinear_arith)
        requires
            sum_amounts(s) <= supply,
    ;
    assert((supply as int) * 10000 / (supply as int) == 10000) by (nonlinear_arith)
        requires
            supply > 0,
    ;
}

/// A wallet's age in whole days at `now_ts`, never negative: the elapsed
/// seconds since its oldest activity, divided by the seconds in a day.
pub open spec fn wallet_age_spec(now_ts: i64, block_time: i64) -> int {
    if now_ts <= block_time {
        0
    } else {
        (now_ts - block_time) / 86400
    }
}

/// Computes a wallet's age in whole days from the current timestamp and the
/// wallet's oldest recorded block time, clamping to zero when the record
/// post-dates the clock.
pub fn wallet_age_days(now_ts: i64, block_time: i64) -> (r: u64)
    ensures
        r as int == wallet_age_spec(now_ts, block_time),
{
    if now_ts <= block_time {
        0
    } else {
        let d = now_ts as i128 - block_time as i128;
        (d / 86400) as u64
    }
}

/// Picks the creation time from a signature history's block times, oldest
/// signature last: the last entry's block time, or nothing when the history
/// is empty or that entry carries none.
pub fn oldest_block_time(block_times: &Vec<Option<i64>>) -> (r: Option<i64>)
    ensures
        block_times@.len() == 0 ==> r is None,
        block_times@.len() > 0 ==> r == block_times@.last(),
{
    if block_times.len() == 0 {
        None
    } else {
        block_times[block_times.len() - 1]
    }
}

/// The bounded retry schedule for holder discovery: three attempts, with
/// waits of 2, 4 and 8 seconds before the next try, then give up.
pub open spec fn retry_delay_spec(attempt: u32) -> Option<u64> {
    if attempt == 0 {
        Some(2u64)
    } else if attempt == 1 {
        Some(4u64)
    } else if attempt == 2 {
        Some(8u64)
    } else {
        None
    }
}

/// How long to wait after failed attempt number `attempt` (counted from
/// zero), or nothing once the three attempts are spent.
pub fn retry_delay_secs(attempt: u32) -> (r: Option<u64>)
    ensures
        r == retry_delay_spec(attempt),
{
    if attempt == 0 {
        Some(2)
    } else if attempt == 1 {
        Some(4)
    } else if attempt == 2 {
        Some(8)
    } else {
        None
    }
}

/// The mandatory gap between per-holder owner lookups, in milliseconds, to
/// respect upstream rate limits.
pub fn holder_lookup_delay_ms() -> (r: u64)
    ensures
        r == 100,
{
    100
}

/// What one holder record becomes when an age lookup answered: a missing
/// age is filled in, a present age is never overwritten, a failed lookup
/// changes nothing.
pub open spec fn enriched_holder(h: TokenHolder, age: Option<u64>) -> TokenHolder {
    if h.wallet_age_days is None && age is Some {
        TokenHolder { wallet_age_days: age, ..h }
    } else {
        h
    }
}

/// Fills wallet ages into the holder list in place, from one looked-up age
/// per holder (`None` where the lookup failed).  Only the first ten holders
/// are ever touched, an already-known age is kept, and a failed lookup
/// leaves its holder unchanged rather than aborting the batch.
pub fn enrich_holder_ages(holders: &mut Vec<TokenHolder>, ages: &Vec<Option<u64>>)
    ensures
        final(holders)@.len() == old(holders)@.len(),
        forall|i: int|
            0 <= i < old(holders)@.len() ==> final(holders)@[i] == if i < 10 && i < ages@.len() {
                enriched_holder(old(holders)@[i], ages@[i])
            } else {
                old(holders)@[i]
            },
{
    let mut limit = holders.len();
    if limit > 10 {
        limit = 10;
    }
    if limit > ages.len() {
        limit = ages.len();
    }
    let mut i: usize = 0;
    while i < limit
        invariant
            limit <= holders@.len(),
            limit <= 10,
            limit <= ages@.len(),
            holders@.len() == old(holders)@.len(),
            0 <= i <= limit,
            forall|j: int|
                0 <= j < i ==> holders@[j] == enriched_holder(old(holders)@[j], ages@[j]),
            forall|j: int| i <= j < holders@.len() ==> holders@[j] == old(holders)@[j],
        decreases limit - i,
    {
        let h = holders[i];
        if h.wallet_age_days.is_none() {
            match ages[i] {
                Some(age) => {
                    holders.set(
                        i,
                        TokenHolder {
                            address: h.address,
                            amount: h.amount,
                            percentage_bps: h.percentage_bps,
                            wallet_age_days: Some(age),
                        },
                    );
                },
                None => {},
            }
        }
        i += 1;
    }
}

/// Statistics of the three fact caches at one instant.
#[derive(Debug, Clone, Copy, PartialEq, Eq, Structural)]
pub struct CacheStatsSummary {
    pub token_cache: CacheStats,
    pub metadata_cache: CacheStats,
    pub wallet_age_cache: CacheStats,
}

/// The three fact caches of the acquisition layer: token snapshots and
/// metadata live five minutes, wallet ages ten.  Instants are in seconds.
#[derive(Debug, Clone)]
pub struct ProviderCaches {
    pub token_cache: Cache<TokenData>,
    pub metadata_cache: Cache<TokenMetadata>,
    pub wallet_age_cache: Cache<u64>,
}

impl ProviderCaches {
    /// Fresh caches with the standard budgets: five minutes over 1000
    /// entries for snapshots and metadata, ten minutes over 5000 entries for
    /// wallet ages.
    pub fn new() -> (r: ProviderCaches)
        ensures
            r.token_cache.wf() && r.token_cache.entries@.len() == 0 && r.token_cache.ttl == 300
                && r.token_cache.max_size == 1000,
            r.metadata_cache.wf() && r.metadata_cache.entries@.len() == 0
                && r.metadata_cache.ttl == 300 && r.metadata_cache.max_size == 1000,
            r.wallet_age_cache.wf() && r.wallet_age_cache.entries@.len() == 0
                && r.wallet_age_cache.ttl == 600 && r.wallet_age_cache.max_size == 5000,
    {
        ProviderCaches {
            token_cache: Cache::new(300, 1000),
            metadata_cache: Cache::new(300, 1000),
            wallet_age_cache: Cache::new(600, 5000),
        }
    }

    /// Empties all three caches.
    pub fn clear_cache(&mut self)
        ensures
            final(self).token_cache.wf() && final(self).token_cache.entries@.len() == 0,
            final(self).metadata_cache.wf() && final(self).metadata_cache.entries@.len() == 0,
            final(self).wallet_age_cache.wf() && final(self).wallet_age_cache.entries@.len() == 0,
            final(self).token_cache.ttl == old(self).token_cache.ttl,
            final(self).token_cache.max_size == old(self).token_cache.max_size,
            final(self).metadata_cache.ttl == old(self).metadata_cache.ttl,
            final(self).metadata_cache.max_size == old(self).metadata_cache.max_size,
            final(self).wallet_age_cache.ttl == old(self).wallet_age_cache.ttl,
            final(self).wallet_age_cache.max_size == old(self).wallet_age_cache.max_size,
    {
        self.token_cache.clear();
        self.metadata_cache.clear();
        self.wallet_age_cache.clear();
    }

    /// The statistics of all three caches at instant `now`.
    pub fn cache_stats(&self, now: u64) -> (r: CacheStatsSummary)
        ensures
            r.token_cache.size == self.token_cache.entries@.len(),
            r.token_cache.capacity == self.token_cache.max_size,
            r.token_cache.expired_entries == expired_count(
                self.token_cache.entries@,
                self.token_cache.ttl,
                now,
            ),
            r.metadata_cache.size == self.metadata_cache.entries@.len(),
            r.metadata_cache.capacity == self.metadata_cache.max_size,
            r.metadata_cache.expired_entries == expired_count(
                self.metadata_cache.entries@,
                self.metadata_cache.ttl,
                now,
            ),
            r.wallet_age_cache.size == self.wallet_age_cache.entries@.len(),
            r.wallet_age_cache.capacity == self.wallet_age_cache.max_size,
            r.wallet_age_cache.expired_entries == expired_count(
                self.wallet_age_cache.entries@,
                self.wallet_age_cache.ttl,
                now,
            ),
    {
        CacheStatsSummary {
            token_cache: self.token_cache.stats(now),
            metadata_cache: self.metadata_cache.stats(now),
            wallet_age_cache: self.wallet_age_cache.stats(now),
        }
    }
}

} // verus!
