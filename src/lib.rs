//! Lifecycle of a database transaction: every transaction ends in exactly one
//! commit or rollback, and nested units of work run under a savepoint. The
//! library decides what to send and what to return; the caller sends it.

pub mod context;
pub mod error;
pub mod executor;
pub mod replay;
pub mod statement;

pub use context::{TransactionContext, TxState};
pub use error::Error;
pub use executor::{with_nested_transaction, with_transaction, Closing};
pub use statement::Statement;
