use sqlx_transaction_manager::replay::committed_queries;
use sqlx_transaction_manager::{
    with_nested_transaction, with_transaction, Closing, Error, Statement, TransactionContext,
    TxState,
};

fn query_error() -> Error {
    Error::Query("duplicate key".to_string())
}

/// Sends a closing as if its statement succeeded and returns the outcome.
fn close_ok<T>(c: Closing<T>) -> Result<T, Error> {
    c.finish(Ok(()))
}

#[test]
fn test_transaction_context_can_be_created() {
    let ctx = TransactionContext::begin();
    assert_eq!(ctx.state(), TxState::Active);
    assert_eq!(ctx.statements(), &vec![Statement::Begin]);
}

#[test]
fn test_executor_functions_exist() {
    let mut ctx = TransactionContext::begin();
    let c = with_transaction(&mut ctx, Ok::<u32, Error>(7));
    assert_eq!(c.statement(), Some(Statement::Commit));
    let mut inner = TransactionContext::begin();
    let n = with_nested_transaction(&mut inner, Ok::<u32, Error>(8));
    assert_eq!(n.statement(), Some(Statement::ReleaseSavepoint));
}

#[test]
fn scenario_a_success_persists_row() {
    let mut ctx = TransactionContext::begin();
    ctx.execute(1).unwrap();
    let c = with_transaction(&mut ctx, Ok::<(), Error>(()));
    assert_eq!(c.statement(), Some(Statement::Commit));
    assert!(close_ok(c).is_ok());
    assert_eq!(ctx.state(), TxState::Committed);
    assert_eq!(ctx.committed_queries(), vec![1]);
}

#[test]
fn scenario_b_failure_discards_row() {
    let mut ctx = TransactionContext::begin();
    ctx.execute(1).unwrap();
    ctx.execute(2).unwrap();
    let c = with_transaction(&mut ctx, Err::<(), Error>(query_error()));
    assert_eq!(c.statement(), Some(Statement::Rollback));
    let r = c.finish(Err(Error::Rollback("connection lost".to_string())));
    assert!(matches!(r, Err(Error::Query(ref m)) if m == "duplicate key"));
    assert_eq!(ctx.state(), TxState::RolledBack);
    assert_eq!(ctx.committed_queries(), Vec::<u64>::new());
}

#[test]
fn scenario_c_nested_failure_keeps_outer_row() {
    let mut ctx = TransactionContext::begin();
    ctx.execute(1).unwrap();
    ctx.savepoint().unwrap();
    ctx.execute(2).unwrap();
    let n = with_nested_transaction(&mut ctx, Err::<(), Error>(query_error()));
    assert_eq!(n.statement(), Some(Statement::RollbackToSavepoint));
    assert!(matches!(close_ok(n), Err(Error::Query(_))));
    let c = with_transaction(&mut ctx, Ok::<(), Error>(()));
    assert!(close_ok(c).is_ok());
    assert_eq!(ctx.committed_queries(), vec![1]);
}

#[test]
fn scenario_d_sequential_nested_successes_persist_all() {
    let mut ctx = TransactionContext::begin();
    ctx.execute(1).unwrap();
    ctx.savepoint().unwrap();
    ctx.execute(2).unwrap();
    let n1 = with_nested_transaction(&mut ctx, Ok::<u8, Error>(2));
    assert_eq!(close_ok(n1).unwrap(), 2);
    ctx.savepoint().unwrap();
    ctx.execute(3).unwrap();
    let n2 = with_nested_transaction(&mut ctx, Ok::<u8, Error>(3));
    assert_eq!(close_ok(n2).unwrap(), 3);
    let c = with_transaction(&mut ctx, Ok::<(), Error>(()));
    assert!(close_ok(c).is_ok());
    assert_eq!(ctx.committed_queries(), vec![1, 2, 3]);
}

#[test]
fn success_issues_one_commit_and_no_rollback() {
    let mut ctx = TransactionContext::begin();
    ctx.execute(5).unwrap();
    let c = with_transaction(&mut ctx, Ok::<&str, Error>("done"));
    assert_eq!(close_ok(c).unwrap(), "done");
    let s = ctx.statements();
    assert_eq!(s.iter().filter(|x| **x == Statement::Commit).count(), 1);
    assert_eq!(s.iter().filter(|x| **x == Statement::Rollback).count(), 0);
}

#[test]
fn failure_issues_one_rollback_and_no_commit() {
    let mut ctx = TransactionContext::begin();
    ctx.execute(5).unwrap();
    let c = with_transaction(&mut ctx, Err::<(), Error>(query_error()));
    assert!(close_ok(c).is_err());
    let s = ctx.statements();
    assert_eq!(s.iter().filter(|x| **x == Statement::Rollback).count(), 1);
    assert_eq!(s.iter().filter(|x| **x == Statement::Commit).count(), 0);
}

#[test]
fn nested_failure_issues_one_rollback_to_savepoint() {
    let mut ctx = TransactionContext::begin();
    ctx.savepoint().unwrap();
    let n = with_nested_transaction(&mut ctx, Err::<(), Error>(query_error()));
    assert!(close_ok(n).is_err());
    assert_eq!(
        ctx.statements(),
        &vec![Statement::Begin, Statement::Savepoint, Statement::RollbackToSavepoint]
    );
    assert_eq!(ctx.state(), TxState::Active);
}

#[test]
fn consumed_context_refuses_every_operation() {
    let mut ctx = TransactionContext::begin();
    ctx.commit().unwrap();
    assert!(matches!(ctx.commit(), Err(Error::AlreadyConsumed)));
    assert!(matches!(ctx.rollback(), Err(Error::AlreadyConsumed)));
    assert!(matches!(ctx.as_executor(), Err(Error::AlreadyConsumed)));
    assert!(matches!(ctx.execute(9), Err(Error::AlreadyConsumed)));
    assert!(matches!(ctx.savepoint(), Err(Error::AlreadyConsumed)));
    assert!(matches!(ctx.release_savepoint(), Err(Error::AlreadyConsumed)));
    assert!(matches!(ctx.rollback_to_savepoint(), Err(Error::AlreadyConsumed)));
    let c = with_transaction(&mut ctx, Ok::<(), Error>(()));
    assert_eq!(c.statement(), None);
    assert!(matches!(close_ok(c), Err(Error::AlreadyConsumed)));
    let n = with_nested_transaction(&mut ctx, Ok::<(), Error>(()));
    assert!(matches!(close_ok(n), Err(Error::AlreadyConsumed)));
    assert_eq!(ctx.statements(), &vec![Statement::Begin, Statement::Commit]);
    assert!(matches!(ctx.into_inner(), Err(Error::AlreadyConsumed)));
}

#[test]
fn consumed_context_surfaces_body_error() {
    let mut ctx = TransactionContext::begin();
    ctx.rollback().unwrap();
    let c = with_transaction(&mut ctx, Err::<(), Error>(query_error()));
    assert_eq!(c.statement(), None);
    assert!(matches!(close_ok(c), Err(Error::Query(_))));
    assert_eq!(ctx.state(), TxState::RolledBack);
}

#[test]
fn sequential_nested_calls_are_independent() {
    let mut ctx = TransactionContext::begin();
    ctx.savepoint().unwrap();
    ctx.execute(10).unwrap();
    let n1 = with_nested_transaction(&mut ctx, Err::<(), Error>(query_error()));
    assert!(close_ok(n1).is_err());
    ctx.savepoint().unwrap();
    ctx.execute(20).unwrap();
    let n2 = with_nested_transaction(&mut ctx, Ok::<(), Error>(()));
    assert!(close_ok(n2).is_ok());
    ctx.execute(30).unwrap();
    ctx.commit().unwrap();
    assert_eq!(ctx.committed_queries(), vec![20, 30]);
}

#[test]
fn commit_failure_surfaces_commit_error() {
    let mut ctx = TransactionContext::begin();
    let c = with_transaction(&mut ctx, Ok::<u8, Error>(1));
    let r = c.finish(Err(Error::Commit("deadlock".to_string())));
    assert!(matches!(r, Err(Error::Commit(ref m)) if m == "deadlock"));
}

#[test]
fn release_failure_surfaces() {
    let mut ctx = TransactionContext::begin();
    ctx.savepoint().unwrap();
    let n = with_nested_transaction(&mut ctx, Ok::<u8, Error>(1));
    let r = n.finish(Err(Error::Query("no such savepoint".to_string())));
    assert!(matches!(r, Err(Error::Query(_))));
}

#[test]
fn explicit_rollback_and_into_inner() {
    let mut ctx = TransactionContext::begin();
    ctx.execute(4).unwrap();
    assert!(ctx.as_executor().is_ok());
    ctx.rollback().unwrap();
    assert_eq!(ctx.committed_queries(), Vec::<u64>::new());
    let mut other = TransactionContext::begin();
    other.execute(6).unwrap();
    let j = other.into_inner().unwrap();
    assert_eq!(j, vec![Statement::Begin, Statement::Query(6)]);
}

#[test]
fn closing_finished_passes_result_through() {
    let c: Closing<u8> = Closing::Finished(Err(Error::Connection("refused".to_string())));
    assert_eq!(c.statement(), None);
    assert!(matches!(close_ok(c), Err(Error::Connection(_))));
}

#[test]
fn savepoint_statements_have_fixed_name() {
    assert_eq!(Statement::Savepoint.savepoint_sql(), Some("SAVEPOINT nested_tx"));
    assert_eq!(
        Statement::ReleaseSavepoint.savepoint_sql(),
        Some("RELEASE SAVEPOINT nested_tx")
    );
    assert_eq!(
        Statement::RollbackToSavepoint.savepoint_sql(),
        Some("ROLLBACK TO SAVEPOINT nested_tx")
    );
    assert_eq!(Statement::Commit.savepoint_sql(), None);
    assert_eq!(Statement::Query(1).savepoint_sql(), None);
}

#[test]
fn replay_ignores_rollback_to_missing_savepoint() {
    let log = vec![
        Statement::Begin,
        Statement::Query(1),
        Statement::RollbackToSavepoint,
        Statement::Query(2),
        Statement::Commit,
        Statement::Query(3),
    ];
    assert_eq!(committed_queries(&log), vec![1, 2]);
}

#[test]
fn error_messages() {
    assert_eq!(Error::AlreadyConsumed.message(), "Transaction has already been consumed");
    assert_eq!(Error::Commit("x".to_string()).message(), "x");
}
