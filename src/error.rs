use vstd::prelude::*;

verus! {

/// Failures reported by the transaction manager.
#[derive(Debug)]
pub enum Error {
    /// Acquiring a connection or starting the transaction failed.
    Connection(String),
    /// A statement issued inside the transaction failed.
    Query(String),
    /// The final commit failed; the database decides how the transaction ended.
    Commit(String),
    /// A rollback that the caller asked for explicitly failed.
    Rollback(String),
    /// The context was used after it had been committed or rolled back.
    AlreadyConsumed,
}

impl Error {
    /// A short description of the failure.
    pub fn message(&self) -> (r: String)
        ensures
            self is AlreadyConsumed ==> r@ == "Transaction has already been consumed"@,
    {
        match self {
            Error::Connection(m) => m.clone(),
            Error::Query(m) => m.clone(),
            Error::Commit(m) => m.clone(),
            Error::Rollback(m) => m.clone(),
            Error::AlreadyConsumed => {
                proof {
                    reveal_strlit("Transaction has already been consumed");
                }
                "Transaction has already been consumed".to_string()
            },
        }
    }
}

} // verus!
