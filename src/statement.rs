use vstd::prelude::*;

verus! {

/// A statement issued on the connection of a transaction.
#[derive(PartialEq, Eq, Structural, Clone, Copy, Debug)]
pub enum Statement {
    /// Opens the transaction.
    Begin,
    /// A statement of the caller, identified by a number of the caller's choosing.
    Query(u64),
    /// `SAVEPOINT nested_tx`
    Savepoint,
    /// `RELEASE SAVEPOINT nested_tx`
    ReleaseSavepoint,
    /// `ROLLBACK TO SAVEPOINT nested_tx`
    RollbackToSavepoint,
    /// Makes the transaction's statements durable and ends it.
    Commit,
    /// Discards the transaction's statements and ends it.
    Rollback,
}

/// Whether the statement ends the transaction.
pub open spec fn is_terminal(s: Statement) -> bool {
    s is Commit || s is Rollback
}

/// The statements of `log` that end a transaction, in order.
pub open spec fn terminals(log: Seq<Statement>) -> Seq<Statement>
    decreases log.len(),
{
    if log.len() == 0 {
        Seq::empty()
    } else if is_terminal(log.last()) {
        terminals(log.drop_last()).push(log.last())
    } else {
        terminals(log.drop_last())
    }
}

/// The caller statements that stand for the numbers of `qs`, in order.
pub open spec fn queries(qs: Seq<u64>) -> Seq<Statement> {
    qs.map_values(|q: u64| Statement::Query(q))
}

pub proof fn lemma_terminals_push(log: Seq<Statement>, s: Statement)
    ensures
        terminals(log.push(s)) == if is_terminal(s) {
            terminals(log).push(s)
        } else {
            terminals(log)
        },
{
    assert(log.push(s).drop_last() =~= log);
}

impl Statement {
    /// The SQL text of a savepoint statement; the other statements are sent
    /// through the transaction handle itself or written by the caller.
    pub fn savepoint_sql(&self) -> (r: Option<&'static str>)
        ensures
            *self == Statement::Savepoint ==> (r matches Some(t) && t@ == "SAVEPOINT nested_tx"@),
            *self == Statement::ReleaseSavepoint ==> (r matches Some(t) && t@
                == "RELEASE SAVEPOINT nested_tx"@),
            *self == Statement::RollbackToSavepoint ==> (r matches Some(t) && t@
                == "ROLLBACK TO SAVEPOINT nested_tx"@),
            !(*self is Savepoint || *self is ReleaseSavepoint || *self is RollbackToSavepoint)
                ==> r is None,
    {
        match self {
            Statement::Savepoint => {
                proof {
                    reveal_strlit("SAVEPOINT nested_tx");
                }
                Some("SAVEPOINT nested_tx")
            },
            Statement::ReleaseSavepoint => {
                proof {
                    reveal_strlit("RELEASE SAVEPOINT nested_tx");
                }
                Some("RELEASE SAVEPOINT nested_tx")
            },
            Statement::RollbackToSavepoint => {
                proof {
                    reveal_strlit("ROLLBACK TO SAVEPOINT nested_tx");
                }
                Some("ROLLBACK TO SAVEPOINT nested_tx")
            },
            _ => None,
        }
    }
}

} // verus!
