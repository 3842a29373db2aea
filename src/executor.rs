use vstd::prelude::*;

use crate::context::{
    context_wf, ended, issued, lemma_active_is_open, with_queries, ContextView, TransactionContext,
    TxState,
};
use crate::error::Error;
use crate::replay::{
    apply, initial_db, lemma_run_append, lemma_run_one, lemma_run_queries, replay, run, DbState,
};
use crate::statement::{lemma_terminals_push, queries, terminals, Statement};

verus! {

/// How a unit of work ends once its body has returned.
pub enum Closing<T> {
    /// Send the statement; hand the value back if it succeeds, else its failure.
    Confirm(Statement, T),
    /// Send the statement as best-effort cleanup, and hand the body's error back
    /// whatever comes of it.
    Cleanup(Statement, Error),
    /// Send nothing, and hand this back.
    Finished(Result<T, Error>),
}

/// The statement that a closing asks to send, if any.
pub open spec fn closing_statement<T>(c: Closing<T>) -> Option<Statement> {
    match c {
        Closing::Confirm(s, _) => Some(s),
        Closing::Cleanup(s, _) => Some(s),
        Closing::Finished(_) => None,
    }
}

/// What a unit of work returns once the closing statement came back as `sent`.
pub open spec fn closing_result<T>(c: Closing<T>, sent: Result<(), Error>) -> Result<T, Error> {
    match c {
        Closing::Confirm(_, v) => match sent {
            Ok(_) => Ok(v),
            Err(e) => Err(e),
        },
        Closing::Cleanup(_, e) => Err(e),
        Closing::Finished(r) => r,
    }
}

/// The closing of a unit of work whose body returned `outcome`: `on_ok` after a
/// success, `on_err` after a failure, and nothing to send on a consumed context.
pub open spec fn closing_of<T>(
    active: bool,
    outcome: Result<T, Error>,
    on_ok: Statement,
    on_err: Statement,
) -> Closing<T> {
    match outcome {
        Ok(v) => if active {
            Closing::Confirm(on_ok, v)
        } else {
            Closing::Finished(Err(Error::AlreadyConsumed))
        },
        Err(e) => if active {
            Closing::Cleanup(on_err, e)
        } else {
            Closing::Finished(Err(e))
        },
    }
}

/// The context after a top-level unit of work ends, its body having succeeded
/// or not.
pub open spec fn top_level_end(v: ContextView, ok: bool) -> ContextView {
    if v.state == TxState::Active {
        ended(
            v,
            if ok {
                Statement::Commit
            } else {
                Statement::Rollback
            },
        )
    } else {
        v
    }
}

/// The context after a nested unit of work ends, its body having succeeded or
/// not.
pub open spec fn nested_end(v: ContextView, ok: bool) -> ContextView {
    if v.state == TxState::Active {
        issued(
            v,
            if ok {
                Statement::ReleaseSavepoint
            } else {
                Statement::RollbackToSavepoint
            },
        )
    } else {
        v
    }
}

impl<T> Closing<T> {
    /// The statement to send before finishing, if any.
    pub fn statement(&self) -> (r: Option<Statement>)
        ensures
            r == closing_statement(*self),
    {
        match self {
            Closing::Confirm(s, _) => Some(*s),
            Closing::Cleanup(s, _) => Some(*s),
            Closing::Finished(_) => None,
        }
    }

    /// What the unit of work returns, given how the closing statement fared
    /// (`Ok(())` where there was none to send).
    pub fn finish(self, sent: Result<(), Error>) -> (r: Result<T, Error>)
        ensures
            r == closing_result(self, sent),
    {
        match self {
            Closing::Confirm(_, v) => match sent {
                Ok(_) => Ok(v),
                Err(e) => Err(e),
            },
            Closing::Cleanup(_, e) => Err(e),
            Closing::Finished(r) => r,
        }
    }
}

/// Ends a top-level unit of work whose body returned `outcome`: a success is
/// committed, a failure rolled back, and the body's error is what surfaces.
pub fn with_transaction<T>(ctx: &mut TransactionContext, outcome: Result<T, Error>) -> (r: Closing<T>)
    requires
        old(ctx).wf(),
    ensures
        final(ctx).wf(),
        r == closing_of(old(ctx).is_active(), outcome, Statement::Commit, Statement::Rollback),
        final(ctx)@ == top_level_end(old(ctx)@, outcome is Ok),
{
    match outcome {
        Ok(v) => match ctx.commit() {
            Ok(()) => Closing::Confirm(Statement::Commit, v),
            Err(e) => Closing::Finished(Err(e)),
        },
        Err(e) => match ctx.rollback() {
            Ok(()) => Closing::Cleanup(Statement::Rollback, e),
            Err(_) => Closing::Finished(Err(e)),
        },
    }
}

/// Ends a nested unit of work, opened by `TransactionContext::savepoint`, whose
/// body returned `outcome`: a success releases the savepoint, a failure rolls
/// back to it, and the enclosing transaction goes on either way.
pub fn with_nested_transaction<T>(ctx: &mut TransactionContext, outcome: Result<T, Error>) -> (r:
    Closing<T>)
    requires
        old(ctx).wf(),
    ensures
        final(ctx).wf(),
        r == closing_of(
            old(ctx).is_active(),
            outcome,
            Statement::ReleaseSavepoint,
            Statement::RollbackToSavepoint,
        ),
        final(ctx)@ == nested_end(old(ctx)@, outcome is Ok),
{
    match outcome {
        Ok(v) => match ctx.release_savepoint() {
            Ok(()) => Closing::Confirm(Statement::ReleaseSavepoint, v),
            Err(e) => Closing::Finished(Err(e)),
        },
        Err(e) => match ctx.rollback_to_savepoint() {
            Ok(()) => Closing::Cleanup(Statement::RollbackToSavepoint, e),
            Err(_) => Closing::Finished(Err(e)),
        },
    }
}

/// A body that succeeds on an active context ends its transaction with exactly
/// one commit and no rollback, and the unit of work hands the value back once
/// that commit succeeds.
pub proof fn lemma_success_commits_once<T>(v: ContextView, value: T)
    requires
        context_wf(v),
        v.state == TxState::Active,
    ensures
        ({
            let c = closing_of(true, Ok::<T, Error>(value), Statement::Commit, Statement::Rollback);
            &&& closing_statement(c) == Some(Statement::Commit)
            &&& closing_result(c, Ok(())) == Ok::<T, Error>(value)
        }),
        top_level_end(v, true).journal == v.journal.push(Statement::Commit),
        terminals(top_level_end(v, true).journal) == seq![Statement::Commit],
{
    lemma_terminals_push(v.journal, Statement::Commit);
}

/// A body that fails on an active context is followed by exactly one rollback
/// (rollback to the savepoint, when nested) and no commit or release, and its
/// own error surfaces however that rollback fares.
pub proof fn lemma_failure_rolls_back_once<T>(v: ContextView, err: Error)
    requires
        context_wf(v),
        v.state == TxState::Active,
    ensures
        ({
            let c = closing_of(true, Err::<T, Error>(err), Statement::Commit, Statement::Rollback);
            &&& closing_statement(c) == Some(Statement::Rollback)
            &&& forall|sent: Result<(), Error>| closing_result(c, sent) == Err::<T, Error>(err)
        }),
        top_level_end(v, false).journal == v.journal.push(Statement::Rollback),
        terminals(top_level_end(v, false).journal) == seq![Statement::Rollback],
        ({
            let c = closing_of(
                true,
                Err::<T, Error>(err),
                Statement::ReleaseSavepoint,
                Statement::RollbackToSavepoint,
            );
            &&& closing_statement(c) == Some(Statement::RollbackToSavepoint)
            &&& forall|sent: Result<(), Error>| closing_result(c, sent) == Err::<T, Error>(err)
        }),
        nested_end(v, false).journal == v.journal.push(Statement::RollbackToSavepoint),
        terminals(nested_end(v, false).journal) == Seq::<Statement>::empty(),
{
    lemma_terminals_push(v.journal, Statement::Rollback);
    lemma_terminals_push(v.journal, Statement::RollbackToSavepoint);
}

/// Once its context is consumed, a unit of work sends nothing, leaves the
/// context as it is, and fails: with `Error::AlreadyConsumed` after a body that
/// succeeded, with the body's own error otherwise.
pub proof fn lemma_consumed_context_fails<T>(
    v: ContextView,
    outcome: Result<T, Error>,
    sent: Result<(), Error>,
)
    requires
        context_wf(v),
        v.state != TxState::Active,
    ensures
        forall|on_ok: Statement, on_err: Statement|
            closing_statement(#[trigger] closing_of(false, outcome, on_ok, on_err)) is None
                && closing_result(closing_of(false, outcome, on_ok, on_err), sent) == match outcome {
                Ok(_) => Err::<T, Error>(Error::AlreadyConsumed),
                Err(e) => Err(e),
            },
        top_level_end(v, outcome is Ok) == v,
        nested_end(v, outcome is Ok) == v,
{
}

/// What a nested unit of work leaves in the transaction: its body's statements
/// if it succeeded, none otherwise.
pub open spec fn kept(body: Seq<u64>, ok: bool) -> Seq<u64> {
    if ok {
        body
    } else {
        Seq::empty()
    }
}

/// The statements of one nested unit of work: the savepoint, the body's
/// statements, and the release or the rollback to the savepoint.
pub open spec fn nested_scope(body: Seq<u64>, ok: bool) -> Seq<Statement> {
    seq![Statement::Savepoint] + queries(body) + seq![
        if ok {
            Statement::ReleaseSavepoint
        } else {
            Statement::RollbackToSavepoint
        },
    ]
}

/// In an open transaction a nested unit of work adds its body's statements to
/// the pending ones if it succeeds, nothing if it fails, and leaves the
/// transaction open with nothing made durable.
pub proof fn lemma_nested_scope(db: DbState, body: Seq<u64>, ok: bool)
    requires
        db.open,
    ensures
        ({
            let after = run(db, nested_scope(body, ok));
            &&& after.open
            &&& after.durable == db.durable
            &&& after.pending == db.pending + kept(body, ok)
        }),
{
    let close = if ok {
        Statement::ReleaseSavepoint
    } else {
        Statement::RollbackToSavepoint
    };
    let opening = seq![Statement::Savepoint];
    lemma_run_append(db, opening + queries(body), seq![close]);
    lemma_run_append(db, opening, queries(body));
    lemma_run_one(db, Statement::Savepoint);
    let db1 = apply(db, Statement::Savepoint);
    lemma_run_queries(db1, body);
    let db2 = run(db1, queries(body));
    lemma_run_one(db2, close);
    if !ok {
        assert((db.pending + body).take(db.pending.len() as int) =~= db.pending);
    }
    assert(db.pending + kept(body, ok) =~= if ok {
        db.pending + body
    } else {
        db.pending
    });
}

/// The context after a nested unit of work on an active context `v`: the
/// savepoint, the body's statements `body`, and the end by the body's outcome.
pub open spec fn nested_call(v: ContextView, body: Seq<u64>, ok: bool) -> ContextView {
    nested_end(with_queries(issued(v, Statement::Savepoint), body), ok)
}

/// A nested call on an active context appends its scope to the journal and
/// leaves the context active.
pub proof fn lemma_nested_call_journal(v: ContextView, body: Seq<u64>, ok: bool)
    requires
        v.state == TxState::Active,
    ensures
        nested_call(v, body, ok).state == TxState::Active,
        nested_call(v, body, ok).journal == v.journal + nested_scope(body, ok),
{
    let close = if ok {
        Statement::ReleaseSavepoint
    } else {
        Statement::RollbackToSavepoint
    };
    assert(v.journal.push(Statement::Savepoint) + queries(body) + seq![close] =~= v.journal
        + nested_scope(body, ok));
    assert((v.journal.push(Statement::Savepoint) + queries(body)).push(close) =~= v.journal.push(
        Statement::Savepoint,
    ) + queries(body) + seq![close]);
}

/// A nested unit of work that fails rolls back none of the statements that the
/// enclosing transaction issued before or after it: once the enclosing
/// transaction commits, they are durable, and the nested body's are not.
pub proof fn lemma_nested_failure_keeps_enclosing(v: ContextView, body: Seq<u64>, after: Seq<u64>)
    requires
        context_wf(v),
        v.state == TxState::Active,
    ensures
        ({
            let done = top_level_end(with_queries(nested_call(v, body, false), after), true);
            &&& done.state == TxState::Committed
            &&& replay(done.journal).durable == replay(v.journal).durable + replay(
                v.journal,
            ).pending + after
        }),
{
    lemma_nested_call_journal(v, body, false);
    let before = v.journal;
    let log = before + nested_scope(body, false) + queries(after);
    let done = top_level_end(with_queries(nested_call(v, body, false), after), true);
    assert(done.journal =~= log.push(Statement::Commit));
    assert(log.push(Statement::Commit) =~= log + seq![Statement::Commit]);
    lemma_active_is_open(v);
    let db0 = replay(before);
    lemma_run_append(initial_db(), before, nested_scope(body, false));
    lemma_nested_scope(db0, body, false);
    let db1 = run(db0, nested_scope(body, false));
    lemma_run_append(initial_db(), before + nested_scope(body, false), queries(after));
    lemma_run_queries(db1, after);
    let db2 = run(db1, queries(after));
    lemma_run_append(initial_db(), log, seq![Statement::Commit]);
    lemma_run_one(db2, Statement::Commit);
    assert(db0.pending + kept(body, false) =~= db0.pending);
    assert(db0.durable + (db0.pending + after) =~= db0.durable + db0.pending + after);
}

/// Two nested units of work, one after the other under the same savepoint
/// name, each keep or drop their own statements by their own body's outcome
/// alone, once the enclosing transaction commits.
pub proof fn lemma_sequential_nested_independent(
    v: ContextView,
    first: Seq<u64>,
    first_ok: bool,
    second: Seq<u64>,
    second_ok: bool,
)
    requires
        context_wf(v),
        v.state == TxState::Active,
    ensures
        ({
            let done = top_level_end(
                nested_call(nested_call(v, first, first_ok), second, second_ok),
                true,
            );
            &&& done.state == TxState::Committed
            &&& replay(done.journal).durable == replay(v.journal).durable + replay(
                v.journal,
            ).pending + kept(first, first_ok) + kept(second, second_ok)
        }),
{
    let v1 = nested_call(v, first, first_ok);
    lemma_nested_call_journal(v, first, first_ok);
    lemma_nested_call_journal(v1, second, second_ok);
    let before = v.journal;
    let l1 = before + nested_scope(first, first_ok);
    let l2 = l1 + nested_scope(second, second_ok);
    let done = top_level_end(nested_call(v1, second, second_ok), true);
    assert(done.journal =~= l2 + seq![Statement::Commit]);
    lemma_active_is_open(v);
    let db0 = replay(before);
    lemma_run_append(initial_db(), before, nested_scope(first, first_ok));
    lemma_nested_scope(db0, first, first_ok);
    let db1 = replay(l1);
    lemma_run_append(initial_db(), l1, nested_scope(second, second_ok));
    lemma_nested_scope(db1, second, second_ok);
    let db2 = replay(l2);
    lemma_run_append(initial_db(), l2, seq![Statement::Commit]);
    lemma_run_one(db2, Statement::Commit);
    assert(db0.durable + (db0.pending + kept(first, first_ok) + kept(second, second_ok)) =~= db0.durable
        + db0.pending + kept(first, first_ok) + kept(second, second_ok));
}

} // verus!
