use txsubmit::nonce::NonceCache;
use txsubmit::submitter::{
    Address, SubmissionError, SubmissionOutcome, TransactionSubmitter, TxHash,
};

fn submitter() -> TransactionSubmitter {
    TransactionSubmitter::new(
        Address { bytes: [0x11; 20] },
        Address { bytes: [0x22; 20] },
        11155111,
    )
}

#[test]
fn prepare_uses_cached_nonce() {
    let s = submitter();
    let mut cache = NonceCache::new();
    cache.confirm(9);
    let req = s.prepare(&cache, true, None, 1).unwrap();
    assert_eq!(req.nonce, 10);
    assert_eq!(req.amount, 1);
    assert_eq!(req.chain_id, 11155111);
    assert_eq!(req.from.bytes, [0x11; 20]);
    assert_eq!(req.to.bytes, [0x22; 20]);
}

#[test]
fn prepare_falls_back_to_ledger_report() {
    let s = submitter();
    let cache = NonceCache::new();
    let req = s.prepare(&cache, true, Some(4), 25).unwrap();
    assert_eq!(req.nonce, 4);
    assert_eq!(req.amount, 25);
}

#[test]
fn prepare_without_identity_is_fatal() {
    let s = submitter();
    let cache = NonceCache::new();
    let r = s.prepare(&cache, false, Some(4), 1);
    assert!(matches!(r, Err(SubmissionError::IdentityUnavailable)));
}

#[test]
fn prepare_without_sequence_report_is_fatal() {
    let s = submitter();
    let cache = NonceCache::new();
    let r = s.prepare(&cache, true, None, 1);
    assert!(matches!(r, Err(SubmissionError::SequenceLookupFailed)));
}

#[test]
fn rejected_submission_empties_cache() {
    // After a rejection the cache is empty, so the next attempt re-queries
    // the ledger rather than reusing the rejected nonce.
    let mut cache = NonceCache::new();
    cache.confirm(5);
    assert_eq!(cache.peek_next(), Some(6));

    let outcome = SubmissionOutcome::Rejected { reason: String::from("nonce too low") };
    let r = TransactionSubmitter::settle(&mut cache, outcome);
    match r {
        Err(SubmissionError::SubmissionRejected { reason }) => {
            assert_eq!(reason, "nonce too low");
        }
        _ => panic!("expected a rejection to be surfaced"),
    }
    assert_eq!(cache.peek_next(), None);
    assert_eq!(cache.reserve_next(9), 9);
}

#[test]
fn unobserved_submission_leaves_cache_untouched() {
    let mut cache = NonceCache::new();
    cache.confirm(5);
    let outcome = SubmissionOutcome::AcceptedNotFound { hash: TxHash { bytes: [0xab; 32] } };
    let r = TransactionSubmitter::settle(&mut cache, outcome);
    assert!(matches!(r, Err(SubmissionError::ConfirmationUnavailable)));
    assert_eq!(cache.peek_next(), Some(6));
}

#[test]
fn confirmed_submission_advances_cache() {
    let mut cache = NonceCache::new();
    let outcome = SubmissionOutcome::AcceptedFound { hash: TxHash { bytes: [0xcd; 32] }, nonce: 10 };
    let r = TransactionSubmitter::settle(&mut cache, outcome);
    let receipt = r.unwrap();
    assert!(receipt.confirmed);
    assert_eq!(receipt.nonce, 10);
    assert_eq!(receipt.hash.bytes, [0xcd; 32]);
    assert_eq!(cache.peek_next(), Some(11));
}
