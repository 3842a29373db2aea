use vstd::prelude::*;

use crate::statement::{queries, Statement};

verus! {

/// What the database holds of one connection after a sequence of statements,
/// when every statement is applied as issued.
pub struct DbState {
    /// Caller statements made durable by a commit.
    pub durable: Seq<u64>,
    /// Caller statements of the open transaction, not yet committed.
    pub pending: Seq<u64>,
    /// Where the savepoint stands in `pending`, if one is set.
    pub mark: Option<nat>,
    /// Whether a transaction is open.
    pub open: bool,
}

pub open spec fn initial_db() -> DbState {
    DbState { durable: Seq::empty(), pending: Seq::empty(), mark: None, open: false }
}

/// The effect of one statement. A statement outside an open transaction, and a
/// rollback to a savepoint that is not set, change nothing.
pub open spec fn apply(db: DbState, s: Statement) -> DbState {
    if !db.open {
        if s is Begin {
            DbState { pending: Seq::empty(), mark: None, open: true, ..db }
        } else {
            db
        }
    } else {
        match s {
            Statement::Begin => db,
            Statement::Query(q) => DbState { pending: db.pending.push(q), ..db },
            Statement::Savepoint => DbState { mark: Some(db.pending.len()), ..db },
            Statement::ReleaseSavepoint => DbState { mark: None, ..db },
            Statement::RollbackToSavepoint => match db.mark {
                Some(m) => if m <= db.pending.len() {
                    DbState { pending: db.pending.take(m as int), ..db }
                } else {
                    db
                },
                None => db,
            },
            Statement::Commit => DbState {
                durable: db.durable + db.pending,
                pending: Seq::empty(),
                mark: None,
                open: false,
            },
            Statement::Rollback => DbState {
                pending: Seq::empty(),
                mark: None,
                open: false,
                ..db
            },
        }
    }
}

/// The state reached from `db` by the statements of `log`, in order.
pub open spec fn run(db: DbState, log: Seq<Statement>) -> DbState
    decreases log.len(),
{
    if log.len() == 0 {
        db
    } else {
        apply(run(db, log.drop_last()), log.last())
    }
}

/// The state of a fresh connection after the statements of `log`.
pub open spec fn replay(log: Seq<Statement>) -> DbState {
    run(initial_db(), log)
}

/// Running two logs one after the other is running their concatenation.
pub proof fn lemma_run_append(db: DbState, a: Seq<Statement>, b: Seq<Statement>)
    ensures
        run(db, a + b) == run(run(db, a), b),
    decreases b.len(),
{
    if b.len() == 0 {
        assert(a + b =~= a);
    } else {
        lemma_run_append(db, a, b.drop_last());
        assert((a + b).drop_last() =~= a + b.drop_last());
    }
}

/// Running a single statement is applying it.
pub proof fn lemma_run_one(db: DbState, s: Statement)
    ensures
        run(db, seq![s]) == apply(db, s),
{
    assert(seq![s].drop_last() =~= Seq::<Statement>::empty());
    assert(run(db, Seq::<Statement>::empty()) == db);
    assert(seq![s].last() == s);
}

/// Inside an open transaction, caller statements join the pending ones in order.
pub proof fn lemma_run_queries(db: DbState, qs: Seq<u64>)
    requires
        db.open,
    ensures
        run(db, queries(qs)) == (DbState { pending: db.pending + qs, ..db }),
    decreases qs.len(),
{
    if qs.len() == 0 {
        assert(queries(qs) =~= Seq::<Statement>::empty());
        assert(db.pending + qs =~= db.pending);
    } else {
        lemma_run_queries(db, qs.drop_last());
        assert(queries(qs).drop_last() =~= queries(qs.drop_last()));
        assert(db.pending + qs =~= (db.pending + qs.drop_last()).push(qs.last()));
    }
}

/// The caller statements that a replay of `log` makes durable.
pub fn committed_queries(log: &Vec<Statement>) -> (r: Vec<u64>)
    ensures
        r@ == replay(log@).durable,
{
    let mut durable: Vec<u64> = Vec::new();
    let mut pending: Vec<u64> = Vec::new();
    let mut mark: Option<usize> = None;
    let mut open = false;
    let mut i: usize = 0;
    while i < log.len()
        invariant
            i <= log@.len(),
            ({
                let db = replay(log@.take(i as int));
                &&& durable@ == db.durable
                &&& pending@ == db.pending
                &&& open == db.open
                &&& match mark {
                    Some(m) => db.mark == Some(m as nat),
                    None => db.mark is None,
                }
            }),
        decreases log.len() - i,
    {
        let s = log[i];
        assert(log@.take(i + 1).drop_last() =~= log@.take(i as int));
        if !open {
            if s == Statement::Begin {
                pending = Vec::new();
                mark = None;
                open = true;
            }
        } else {
            match s {
                Statement::Begin => {},
                Statement::Query(q) => {
                    pending.push(q);
                },
                Statement::Savepoint => {
                    mark = Some(pending.len());
                },
                Statement::ReleaseSavepoint => {
                    mark = None;
                },
                Statement::RollbackToSavepoint => {
                    if let Some(m) = mark {
                        if m <= pending.len() {
                            pending.truncate(m);
                        }
                    }
                },
                Statement::Commit => {
                    durable.append(&mut pending);
                    mark = None;
                    open = false;
                },
                Statement::Rollback => {
                    pending = Vec::new();
                    mark = None;
                    open = false;
                },
            }
        }
        i = i + 1;
    }
    assert(log@.take(log@.len() as int) =~= log@);
    durable
}

} // verus!
