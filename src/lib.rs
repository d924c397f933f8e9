//! A ledger of carbon-emission claims for companies and products, with a
//! verification workflow and platform-wide statistics kept in step with the
//! records.
//!
//! Host services (authentication, the ledger clock, persistent storage) stay
//! outside: each operation takes what it needs of them as plain values.
pub mod ledger;
pub mod record;

pub use ledger::GreenScoreLedger;
pub use record::{CarbonRecord, LedgerError, PlatformStats, RecordBook};
