use vstd::prelude::*;

use crate::error::Error;
use crate::replay::{apply, initial_db, replay, run};
use crate::statement::{is_terminal, lemma_terminals_push, queries, terminals, Statement};

verus! {

/// Where a transaction stands in its lifecycle.
#[derive(PartialEq, Eq, Structural, Clone, Copy, Debug)]
pub enum TxState {
    Active,
    Committed,
    RolledBack,
}

/// The abstract value of a context: its state and the statements issued on its
/// connection, in order.
pub struct ContextView {
    pub state: TxState,
    pub journal: Seq<Statement>,
}

/// A journal opens with `Begin`, which never comes again; while active it holds
/// no terminal statement, and once consumed it ends with its only one.
pub open spec fn context_wf(v: ContextView) -> bool {
    &&& v.journal.len() >= 1
    &&& v.journal[0] == Statement::Begin
    &&& forall|i: int| 1 <= i < v.journal.len() ==> v.journal[i] != Statement::Begin
    &&& terminals(v.journal) == match v.state {
        TxState::Active => Seq::<Statement>::empty(),
        TxState::Committed => seq![Statement::Commit],
        TxState::RolledBack => seq![Statement::Rollback],
    }
    &&& v.state != TxState::Active ==> is_terminal(v.journal.last())
}

/// The view after a non-terminal statement is issued on an active context.
pub open spec fn issued(v: ContextView, s: Statement) -> ContextView {
    ContextView { journal: v.journal.push(s), ..v }
}

/// The view after the transaction ends with `s`, `Commit` or `Rollback`.
pub open spec fn ended(v: ContextView, s: Statement) -> ContextView {
    ContextView {
        state: if s is Commit {
            TxState::Committed
        } else {
            TxState::RolledBack
        },
        journal: v.journal.push(s),
    }
}

/// The view after the caller's statements `qs` are executed on an active
/// context, one `execute` each.
pub open spec fn with_queries(v: ContextView, qs: Seq<u64>) -> ContextView {
    ContextView { journal: v.journal + queries(qs), ..v }
}

/// One more `execute` extends the caller's statements by one.
pub proof fn lemma_execute_extends(v: ContextView, qs: Seq<u64>, q: u64)
    ensures
        issued(with_queries(v, qs), Statement::Query(q)) == with_queries(v, qs.push(q)),
{
    assert(queries(qs.push(q)) =~= queries(qs).push(Statement::Query(q)));
    assert((v.journal + queries(qs)).push(Statement::Query(q)) =~= v.journal + queries(qs.push(q)));
}

/// The journal of an active context leaves its transaction open.
pub proof fn lemma_active_is_open(v: ContextView)
    requires
        context_wf(v),
        v.state == TxState::Active,
    ensures
        replay(v.journal).open,
{
    lemma_open_journal(v.journal);
}

proof fn lemma_open_journal(j: Seq<Statement>)
    requires
        j.len() >= 1,
        j[0] == Statement::Begin,
        terminals(j) == Seq::<Statement>::empty(),
    ensures
        replay(j).open,
    decreases j.len(),
{
    if j.len() == 1 {
        assert(j.drop_last() =~= Seq::<Statement>::empty());
        assert(run(initial_db(), Seq::<Statement>::empty()) == initial_db());
    } else {
        let p = j.drop_last();
        lemma_terminals_push(p, j.last());
        assert(p.push(j.last()) =~= j);
        assert(!is_terminal(j.last()));
        lemma_open_journal(p);
        assert(apply(replay(p), j.last()).open);
    }
}

/// One open transaction. It ends in exactly one of commit and rollback; after
/// that every operation on it fails with `Error::AlreadyConsumed`.
pub struct TransactionContext {
    state: TxState,
    journal: Vec<Statement>,
}

impl View for TransactionContext {
    type V = ContextView;

    closed spec fn view(&self) -> ContextView {
        ContextView { state: self.state, journal: self.journal@ }
    }
}

impl TransactionContext {
    pub open spec fn wf(&self) -> bool {
        context_wf(self@)
    }

    pub open spec fn is_active(&self) -> bool {
        self@.state == TxState::Active
    }

    /// A context for a transaction that has just been opened on its connection.
    pub fn begin() -> (r: Self)
        ensures
            r.wf(),
            r@ == (ContextView { state: TxState::Active, journal: seq![Statement::Begin] }),
    {
        let r = TransactionContext { state: TxState::Active, journal: vec![Statement::Begin] };
        proof {
            let j = r.journal@;
            assert(j =~= seq![Statement::Begin]);
            assert(j.drop_last() =~= Seq::<Statement>::empty());
            assert(terminals(Seq::<Statement>::empty()) =~= Seq::<Statement>::empty());
            assert(terminals(j) =~= Seq::<Statement>::empty());
        }
        r
    }

    /// Where the transaction stands.
    pub fn state(&self) -> (r: TxState)
        ensures
            r == self@.state,
    {
        self.state
    }

    /// The statements issued on the connection so far.
    pub fn statements(&self) -> (r: &Vec<Statement>)
        ensures
            r@ == self@.journal,
    {
        &self.journal
    }

    proof fn lemma_push_keeps_wf(v: ContextView, s: Statement, state: TxState)
        requires
            context_wf(v),
            v.state == TxState::Active,
            s != Statement::Begin,
            is_terminal(s) ==> state == (if s is Commit {
                TxState::Committed
            } else {
                TxState::RolledBack
            }),
            !is_terminal(s) ==> state == TxState::Active,
        ensures
            context_wf(ContextView { state, journal: v.journal.push(s) }),
    {
        lemma_terminals_push(v.journal, s);
        let w = ContextView { state, journal: v.journal.push(s) };
        assert forall|i: int| 1 <= i < w.journal.len() implies w.journal[i] != Statement::Begin by {
            if i < v.journal.len() {
                assert(w.journal[i] == v.journal[i]);
            }
        }
        if is_terminal(s) {
            assert(terminals(w.journal) =~= seq![s]);
        }
    }

    /// Records a statement that does not end the transaction.
    fn issue(&mut self, s: Statement) -> (r: Result<(), Error>)
        requires
            old(self).wf(),
            !is_terminal(s),
            s != Statement::Begin,
        ensures
            final(self).wf(),
            old(self).is_active() ==> r is Ok && final(self)@ == issued(old(self)@, s),
            !old(self).is_active() ==> (r matches Err(Error::AlreadyConsumed)) && final(self)@
                == old(self)@,
    {
        if self.state == TxState::Active {
            proof {
                Self::lemma_push_keeps_wf(self@, s, TxState::Active);
            }
            self.journal.push(s);
            Ok(())
        } else {
            Err(Error::AlreadyConsumed)
        }
    }

    /// Ends the transaction with `s`, `Commit` or `Rollback`.
    fn end(&mut self, s: Statement) -> (r: Result<(), Error>)
        requires
            old(self).wf(),
            is_terminal(s),
        ensures
            final(self).wf(),
            old(self).is_active() ==> r is Ok && final(self)@ == ended(old(self)@, s),
            !old(self).is_active() ==> (r matches Err(Error::AlreadyConsumed)) && final(self)@
                == old(self)@,
    {
        if self.state == TxState::Active {
            let state = if s == Statement::Commit {
                TxState::Committed
            } else {
                TxState::RolledBack
            };
            proof {
                Self::lemma_push_keeps_wf(self@, s, state);
            }
            self.journal.push(s);
            self.state = state;
            Ok(())
        } else {
            Err(Error::AlreadyConsumed)
        }
    }

    /// Commits the transaction. The commit statement is then to be sent; its
    /// failure is the caller's `Error::Commit`.
    pub fn commit(&mut self) -> (r: Result<(), Error>)
        requires
            old(self).wf(),
        ensures
            final(self).wf(),
            old(self).is_active() ==> r is Ok && final(self)@ == ended(
                old(self)@,
                Statement::Commit,
            ),
            !old(self).is_active() ==> (r matches Err(Error::AlreadyConsumed)) && final(self)@
                == old(self)@,
    {
        self.end(Statement::Commit)
    }

    /// Rolls the transaction back. The rollback statement is then to be sent.
    pub fn rollback(&mut self) -> (r: Result<(), Error>)
        requires
            old(self).wf(),
        ensures
            final(self).wf(),
            old(self).is_active() ==> r is Ok && final(self)@ == ended(
                old(self)@,
                Statement::Rollback,
            ),
            !old(self).is_active() ==> (r matches Err(Error::AlreadyConsumed)) && final(self)@
                == old(self)@,
    {
        self.end(Statement::Rollback)
    }

    /// Whether the executor handle of the connection may be handed out: only
    /// while the transaction is active.
    pub fn as_executor(&self) -> (r: Result<(), Error>)
        ensures
            self.is_active() ==> r is Ok,
            !self.is_active() ==> r matches Err(Error::AlreadyConsumed),
    {
        if self.state == TxState::Active {
            Ok(())
        } else {
            Err(Error::AlreadyConsumed)
        }
    }

    /// Records a statement of the caller issued through the executor handle.
    pub fn execute(&mut self, query: u64) -> (r: Result<(), Error>)
        requires
            old(self).wf(),
        ensures
            final(self).wf(),
            old(self).is_active() ==> r is Ok && final(self)@ == issued(
                old(self)@,
                Statement::Query(query),
            ),
            !old(self).is_active() ==> (r matches Err(Error::AlreadyConsumed)) && final(self)@
                == old(self)@,
    {
        self.issue(Statement::Query(query))
    }

    /// Sets the savepoint of a nested unit of work.
    pub fn savepoint(&mut self) -> (r: Result<(), Error>)
        requires
            old(self).wf(),
        ensures
            final(self).wf(),
            old(self).is_active() ==> r is Ok && final(self)@ == issued(
                old(self)@,
                Statement::Savepoint,
            ),
            !old(self).is_active() ==> (r matches Err(Error::AlreadyConsumed)) && final(self)@
                == old(self)@,
    {
        self.issue(Statement::Savepoint)
    }

    /// Releases the savepoint, keeping its statements in the transaction.
    pub fn release_savepoint(&mut self) -> (r: Result<(), Error>)
        requires
            old(self).wf(),
        ensures
            final(self).wf(),
            old(self).is_active() ==> r is Ok && final(self)@ == issued(
                old(self)@,
                Statement::ReleaseSavepoint,
            ),
            !old(self).is_active() ==> (r matches Err(Error::AlreadyConsumed)) && final(self)@
                == old(self)@,
    {
        self.issue(Statement::ReleaseSavepoint)
    }

    /// Discards the statements issued since the savepoint.
    pub fn rollback_to_savepoint(&mut self) -> (r: Result<(), Error>)
        requires
            old(self).wf(),
        ensures
            final(self).wf(),
            old(self).is_active() ==> r is Ok && final(self)@ == issued(
                old(self)@,
                Statement::RollbackToSavepoint,
            ),
            !old(self).is_active() ==> (r matches Err(Error::AlreadyConsumed)) && final(self)@
                == old(self)@,
    {
        self.issue(Statement::RollbackToSavepoint)
    }

    /// Hands out the journal of a transaction that is still active, consuming
    /// the context.
    pub fn into_inner(self) -> (r: Result<Vec<Statement>, Error>)
        ensures
            self.is_active() ==> (r matches Ok(j) && j@ == self@.journal),
            !self.is_active() ==> r matches Err(Error::AlreadyConsumed),
    {
        if self.state == TxState::Active {
            Ok(self.journal)
        } else {
            Err(Error::AlreadyConsumed)
        }
    }

    /// The caller statements that the database keeps once the statements of
    /// this context are applied.
    pub fn committed_queries(&self) -> (r: Vec<u64>)
        ensures
            r@ == crate::replay::replay(self@.journal).durable,
    {
        crate::replay::committed_queries(&self.journal)
    }
}

} // verus!
