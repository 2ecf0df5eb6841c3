//! Cache of the next sequence number (nonce) for the managed address.

use vstd::prelude::*;

verus! {

/// In-memory, single-writer cache of the next nonce to use for the managed
/// address.
///
/// An empty cache means "unknown: the next attempt must query the ledger".
/// A stored value is always derived from a confirmed transaction's nonce plus
/// one, so the cache never drifts ahead of what the ledger has accepted: it
/// advances only through [`NonceCache::confirm`], never optimistically at
/// reservation time.
pub struct NonceCache {
    cached: Option<u64>,
}

impl NonceCache {
    /// The cached value as contracts see it: `None` when unknown, `Some(n)`
    /// when `n` is the next nonce to use.
    pub closed spec fn cached(self) -> Option<u64> {
        self.cached
    }

    /// A fresh cache knows nothing; the first reservation falls back to the
    /// ledger.
    pub fn new() -> (r: NonceCache)
        ensures
            r.cached() is None,
    {
        NonceCache { cached: None }
    }

    /// Returns the cached next nonce without consulting anything; `None`
    /// signals that a reservation will need the ledger's report.
    pub fn peek_next(&self) -> (r: Option<u64>)
        ensures
            r == self.cached(),
    {
        self.cached
    }

    /// Reserves a tentative nonce for one in-flight attempt: the cached value
    /// when one is present, otherwise `ledger_nonce`, the account sequence
    /// number the ledger reported. The cache itself does not advance here;
    /// advancement happens only on confirmation.
    pub fn reserve_next(&self, ledger_nonce: u64) -> (r: u64)
        ensures
            self.cached() matches Some(n) ==> r == n,
            self.cached() is None ==> r == ledger_nonce,
    {
        match self.cached {
            Some(n) => n,
            None => ledger_nonce,
        }
    }

    /// Records that the transaction using `nonce` was confirmed as included:
    /// the next nonce to use is `nonce + 1`.
    pub fn confirm(&mut self, nonce: u64)
        requires
            nonce < u64::MAX,
        ensures
            final(self).cached() == Some((nonce + 1) as u64),
    {
        self.cached = Some(nonce + 1);
    }

    /// Clears the cache after an outcome that makes the stored value
    /// untrustworthy, forcing the next reservation to re-query the ledger.
    pub fn invalidate(&mut self)
        ensures
            final(self).cached() is None,
    {
        self.cached = None;
    }
}

/// The cache contents after one submission round that ends in a confirmation:
/// the round reserves the cached value — or, while the cache is empty, the
/// value the ledger reports — and, once the ledger confirms inclusion, sets
/// the cache to that nonce plus one. Mirrors one `reserve_next` / `confirm`
/// pair.
pub open spec fn confirmed_round(cache: Option<int>, ledger: int) -> Option<int> {
    match cache {
        Some(n) => Some(n + 1),
        None => Some(ledger + 1),
    }
}

/// The cache contents after `n` confirmed rounds, starting from an empty
/// cache, when the ledger reports sequence number `k`. Only the first round
/// consults the ledger: every later round finds the cache filled.
pub open spec fn confirmed_rounds(k: int, n: nat) -> Option<int>
    decreases n,
{
    if n == 0 {
        None
    } else {
        confirmed_round(confirmed_rounds(k, (n - 1) as nat), k)
    }
}

/// Law: after `n` confirmed submissions from an empty cache, the cached nonce
/// equals the initial ledger nonce plus `n`.
pub proof fn lemma_cached_after_confirmations(k: int, n: nat)
    requires
        n > 0,
    ensures
        confirmed_rounds(k, n) == Some(k + n),
    decreases n,
{
    if n == 1 {
        assert(confirmed_rounds(k, 0) is None);
    } else {
        lemma_cached_after_confirmations(k, (n - 1) as nat);
    }
}

} // verus!
