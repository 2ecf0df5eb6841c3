//! One submission attempt: nonce resolution, request construction, and
//! settlement of the ledger's verdict against the nonce cache.

use vstd::prelude::*;

use crate::nonce::NonceCache;

verus! {

/// A 20-byte account address on the ledger.
#[derive(Clone, Copy)]
pub struct Address {
    pub bytes: [u8; 20],
}

/// The 32-byte identifier of a submitted transaction.
#[derive(Clone, Copy)]
pub struct TxHash {
    pub bytes: [u8; 32],
}

/// A value-transfer request, constructed fresh for each submission attempt
/// and never persisted.
#[derive(Clone, Copy)]
pub struct TransactionRequest {
    pub from: Address,
    pub to: Address,
    pub amount: u64,
    pub nonce: u64,
    pub chain_id: u64,
}

/// What the ledger reported about a submitted transaction; used only to
/// decide whether the nonce cache advances.
#[derive(Clone, Copy)]
pub struct TransactionReceipt {
    pub hash: TxHash,
    pub nonce: u64,
    pub confirmed: bool,
}

/// Why a submission attempt failed.
#[derive(Debug)]
pub enum SubmissionError {
    /// The signing identity could not be obtained; fatal to the attempt.
    IdentityUnavailable,
    /// The cache was empty and the ledger could not report the account's
    /// sequence number; fatal to the attempt.
    SequenceLookupFailed,
    /// The ledger refused the transaction outright (bad nonce, insufficient
    /// balance, malformed request); the cache is invalidated so the next
    /// attempt re-derives a fresh nonce.
    SubmissionRejected { reason: String },
    /// The transaction was accepted but could not yet be observed; the cache
    /// is left untouched, since the transaction may still land later.
    ConfirmationUnavailable,
}

/// How one accepted-or-rejected submission ended, as reported by the ledger:
/// the attempt's transaction was either refused outright, or accepted and
/// then looked up by its hash, where the lookup found it included (with the
/// nonce it consumed) or did not find it.
pub enum SubmissionOutcome {
    /// The ledger refused the transaction, with its stated reason.
    Rejected { reason: String },
    /// The transaction was accepted, but the lookup by hash found nothing.
    AcceptedNotFound { hash: TxHash },
    /// The lookup found the transaction included, consuming `nonce`.
    AcceptedFound { hash: TxHash, nonce: u64 },
}

/// Orchestrates one submission attempt for a fixed source/destination pair on
/// a fixed chain. The host shell performs the network calls (identity lookup,
/// sequence query, signing and submission, lookup by hash) and hands their
/// plain results to [`TransactionSubmitter::prepare`] and
/// [`TransactionSubmitter::settle`], which make every decision.
pub struct TransactionSubmitter {
    pub from: Address,
    pub to: Address,
    pub chain_id: u64,
}

impl TransactionSubmitter {
    pub fn new(from: Address, to: Address, chain_id: u64) -> (r: TransactionSubmitter)
        ensures
            r.from == from,
            r.to == to,
            r.chain_id == chain_id,
    {
        TransactionSubmitter { from, to, chain_id }
    }

    /// The first half of an attempt: given whether a signing identity could
    /// be obtained and, for an empty cache, what the ledger reported as the
    /// account's sequence number, either builds the request to sign and
    /// submit or says why the attempt is over.
    ///
    /// `ledger_report` matters only while the cache is empty: a present cache
    /// value always wins, and `None` on an empty cache means the sequence
    /// lookup failed. The cache is not changed here.
    pub fn prepare(
        &self,
        cache: &NonceCache,
        identity_available: bool,
        ledger_report: Option<u64>,
        amount: u64,
    ) -> (r: Result<TransactionRequest, SubmissionError>)
        ensures
            !identity_available ==> (r matches Err(e) && e is IdentityUnavailable),
            cache.cached() matches Some(n) ==> (identity_available ==> (r matches Ok(req)
                && req == (TransactionRequest {
                    from: self.from,
                    to: self.to,
                    amount,
                    nonce: n,
                    chain_id: self.chain_id,
                }))),
            ledger_report matches Some(k) ==> ((identity_available && cache.cached() is None)
                ==> (r matches Ok(req) && req == (TransactionRequest {
                    from: self.from,
                    to: self.to,
                    amount,
                    nonce: k,
                    chain_id: self.chain_id,
                }))),
            identity_available && cache.cached() is None && ledger_report is None
                ==> (r matches Err(e) && e is SequenceLookupFailed),
    {
        if !identity_available {
            return Err(SubmissionError::IdentityUnavailable);
        }
        let nonce: u64 = match cache.peek_next() {
            Some(n) => n,
            None => {
                match ledger_report {
                    Some(k) => cache.reserve_next(k),
                    None => {
                        return Err(SubmissionError::SequenceLookupFailed);
                    },
                }
            },
        };
        Ok(TransactionRequest { from: self.from, to: self.to, amount, nonce, chain_id: self.chain_id })
    }

    /// The second half of an attempt: settles the ledger's verdict against
    /// the cache. A rejection empties the cache, so the next attempt
    /// re-queries the ledger instead of reusing the refused nonce; an
    /// accepted-but-unobserved transaction leaves the cache untouched, since
    /// it may still land; a found transaction advances the cache past the
    /// nonce it consumed and yields the confirmed receipt.
    pub fn settle(cache: &mut NonceCache, outcome: SubmissionOutcome) -> (r: Result<
        TransactionReceipt,
        SubmissionError,
    >)
        requires
            outcome matches SubmissionOutcome::AcceptedFound { nonce, .. } ==> nonce < u64::MAX,
        ensures
            outcome matches SubmissionOutcome::Rejected { reason } ==> (r matches Err(e)
                && e matches SubmissionError::SubmissionRejected { reason: given }
                && given == reason && final(cache).cached() is None),
            outcome matches SubmissionOutcome::AcceptedNotFound { .. } ==> (r matches Err(e)
                && e is ConfirmationUnavailable
                && final(cache).cached() == old(cache).cached()),
            outcome matches SubmissionOutcome::AcceptedFound { hash, nonce } ==> (r matches Ok(t)
                && t == (TransactionReceipt { hash, nonce, confirmed: true })
                && final(cache).cached() == Some((nonce + 1) as u64)),
    {
        match outcome {
            SubmissionOutcome::Rejected { reason } => {
                cache.invalidate();
                Err(SubmissionError::SubmissionRejected { reason })
            },
            SubmissionOutcome::AcceptedNotFound { hash: _ } => Err(
                SubmissionError::ConfirmationUnavailable,
            ),
            SubmissionOutcome::AcceptedFound { hash, nonce } => {
                cache.confirm(nonce);
                Ok(TransactionReceipt { hash, nonce, confirmed: true })
            },
        }
    }
}

} // verus!
