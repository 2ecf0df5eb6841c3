//! A single-identity transaction submission engine: it tracks the managed
//! account's sequence number (nonce) across submission attempts, settles each
//! attempt against the ledger's verdict, and gates a recurring transfer so
//! that it runs at most once per configured interval.
//!
//! The host shell performs the actual network calls (identity lookup, ledger
//! queries, signing and submission) and hands their plain results to the
//! functions here, which make every decision: which nonce to use, how an
//! attempt's outcome changes the cache, and whether a periodic transfer is
//! due.

pub mod gate;
pub mod nonce;
pub mod submitter;
