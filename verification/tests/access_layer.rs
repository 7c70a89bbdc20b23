use surreal_pool::context::{AccessGuard, DbContext};
use surreal_pool::engine::{
    select_message, select_messages, select_params, select_value, Method, SurrealWasmEngine,
};
use surreal_pool::error::DbError;
use surreal_pool::message::{decode_message, decode_messages, Message};
use surreal_pool::pool::SurrealPool;
use surreal_pool::session::Session;
use surreal_pool::value::{Data, Value};
use surreal_pool::worker::{run_worker, DbReply, DbTask};

fn ok_data(text: &str) -> Result<Data, String> {
    Ok(Data::Other(Value::Strand(text.to_owned())))
}

fn fresh_handle() -> SurrealWasmEngine {
    SurrealWasmEngine::new(Ok(Data::Other(Value::Absent))).unwrap()
}

fn fresh_pool(n: usize) -> SurrealPool {
    let mut results = Vec::new();
    for _ in 0..n {
        results.push(Ok(fresh_handle()));
    }
    SurrealPool::new(results).unwrap()
}

#[test]
fn handle_permit_is_exclusive_until_finished() {
    let mut h = fresh_handle();
    assert!(h.is_idle());
    let req = h.begin_execute(Method::Select, Vec::new());
    assert_eq!(req.version, 2);
    // While the call is in flight no second call can begin.
    assert!(!h.is_idle());
    let r = h.finish_execute(ok_data("fine"));
    assert!(r.is_ok());
    assert!(h.is_idle());
}

#[test]
fn engine_failure_becomes_typed_error() {
    let mut h = fresh_handle();
    h.begin_execute(Method::Create, Vec::new());
    let r = h.finish_execute(Err("boom".to_owned()));
    match r {
        Err(DbError::EngineCallFailure(m)) => assert_eq!(m, "boom"),
        _ => panic!("an engine failure must come back as EngineCallFailure"),
    }
    // The permit is released even after a failure.
    assert!(h.is_idle());
}

#[test]
fn bootstrap_failure_fails_construction() {
    let r = SurrealWasmEngine::new(Err("no storage".to_owned()));
    assert!(matches!(r, Err(DbError::EngineCallFailure(_))));
}

#[test]
fn bootstrap_selects_namespace_and_database() {
    let h = fresh_handle();
    let s = h.0.session();
    assert_eq!(s.ns, "");
    assert_eq!(s.db, "data");
    assert!(s.rt);
    let req = SurrealWasmEngine::bootstrap_request();
    assert!(matches!(req.method, Method::Use));
    assert_eq!(req.params.len(), 2);
}

#[test]
fn session_swap_is_whole_value() {
    let mut h = fresh_handle();
    h.0.set_session(Session { ns: "n2".to_owned(), db: "d2".to_owned(), rt: false });
    let s = h.0.session();
    // The read sees the complete new session, never a mixture.
    assert_eq!(s.ns, "n2");
    assert_eq!(s.db, "d2");
    assert!(!s.rt);
}

#[test]
fn version_data_reports_engine_version() {
    let h = fresh_handle();
    match h.0.version_data() {
        Data::Other(Value::Strand(s)) => assert_eq!(s, "surrealdb-2.2.1"),
        _ => panic!("version must be a string value"),
    }
}

#[test]
fn pool_conservation_under_take_and_give_back() {
    let mut pool = fresh_pool(3);
    assert_eq!(pool.capacity(), 3);
    assert_eq!(pool.taken_count() + pool.idle_count(), 3);
    let a = pool.take();
    assert_eq!(pool.taken_count() + pool.idle_count(), 3);
    let b = pool.take();
    assert_eq!(pool.taken_count(), 2);
    assert_eq!(pool.idle_count(), 1);
    pool.give_back(a);
    assert_eq!(pool.taken_count() + pool.idle_count(), 3);
    pool.give_back(b);
    assert_eq!(pool.taken_count(), 0);
    assert_eq!(pool.idle_count(), 3);
}

#[test]
fn pool_hands_handles_out_fifo() {
    let mut h1 = fresh_handle();
    h1.0.set_session(Session { ns: "first".to_owned(), db: "data".to_owned(), rt: true });
    let mut h2 = fresh_handle();
    h2.0.set_session(Session { ns: "second".to_owned(), db: "data".to_owned(), rt: true });
    let mut pool = SurrealPool::new(vec![Ok(h1), Ok(h2)]).unwrap();
    let first = pool.take();
    assert_eq!(first.0.session().ns, "first");
    let second = pool.take();
    assert_eq!(second.0.session().ns, "second");
    // Returned handles go to the back: the next take sees them in the
    // order they came back.
    pool.give_back(second);
    pool.give_back(first);
    let next = pool.take();
    assert_eq!(next.0.session().ns, "second");
}

#[test]
fn pool_construction_fails_as_a_whole() {
    let mut results: Vec<Result<SurrealWasmEngine, DbError>> = Vec::new();
    for _ in 0..6 {
        results.push(Ok(fresh_handle()));
    }
    results.push(Err(DbError::EngineCallFailure("engine seven is broken".to_owned())));
    for _ in 0..3 {
        results.push(Ok(fresh_handle()));
    }
    match SurrealPool::new(results) {
        Err(DbError::EngineCallFailure(m)) => assert_eq!(m, "engine seven is broken"),
        _ => panic!("one failed engine must fail the whole pool"),
    }
}

#[test]
fn empty_pool_yields_none_instead_of_aborting() {
    let mut pool = SurrealPool::new(Vec::new()).unwrap();
    assert_eq!(pool.capacity(), 0);
    assert!(pool.try_take().is_none());
}

#[test]
fn round_trip_message_value() {
    let m = Message { msg: "hello".to_owned() };
    let v = m.to_value();
    let back = decode_message(&v).unwrap();
    assert_eq!(back.msg, "hello");
}

#[test]
fn round_trip_through_table_select() {
    // Create a record with payload msg = "hello", then decode a
    // table-wide select whose result contains that record.
    let m = Message { msg: "hello".to_owned() };
    let stored = m.to_value();
    let selected = Data::Other(Value::Array(vec![stored]));
    let records = select_messages(selected).unwrap();
    assert_eq!(records.len(), 1);
    assert_eq!(records[0].msg, "hello");
}

#[test]
fn absent_is_empty_result_not_decode_failure() {
    // A nonexistent identifier: the engine answers with no value.
    let r = select_message(Data::Other(Value::Absent));
    assert!(matches!(r, Err(DbError::EmptyResult)));
    let r2 = select_message(Data::NonValue);
    assert!(matches!(r2, Err(DbError::EmptyResult)));
}

#[test]
fn malformed_is_decode_failure_not_empty() {
    // An existing record that does not fit the requested type.
    let r = select_message(Data::Other(Value::Strand("not an object".to_owned())));
    assert!(matches!(r, Err(DbError::DecodeFailure)));
    let wrong_field = Value::Object(vec![("other".to_owned(), Value::Strand("x".to_owned()))]);
    assert!(matches!(decode_message(&wrong_field), Err(DbError::DecodeFailure)));
    let wrong_type = Value::Object(vec![("msg".to_owned(), Value::Absent)]);
    assert!(matches!(decode_message(&wrong_type), Err(DbError::DecodeFailure)));
}

#[test]
fn list_decode_fails_on_one_bad_record() {
    let good = Message { msg: "ok".to_owned() }.to_value();
    let bad = Value::Strand("broken".to_owned());
    let r = decode_messages(&Value::Array(vec![good, bad]));
    assert!(matches!(r, Err(DbError::DecodeFailure)));
}

#[test]
fn select_params_build_point_and_table_lookups() {
    let point = select_params("msg", Some("00fg7fm50o9z1pxkfq1k".to_owned()));
    assert_eq!(point.len(), 1);
    match &point[0] {
        Value::Thing { table, id } => {
            assert_eq!(table, "msg");
            assert_eq!(id, "00fg7fm50o9z1pxkfq1k");
        },
        _ => panic!("a point lookup must carry a record reference"),
    }
    let whole = select_params("msg", None);
    match &whole[0] {
        Value::Strand(t) => assert_eq!(t, "msg"),
        _ => panic!("a table lookup must carry the table name"),
    }
}

#[test]
fn select_value_passes_values_through() {
    let v = Value::Strand("x".to_owned());
    match select_value(Data::Other(v)) {
        Ok(Value::Strand(s)) => assert_eq!(s, "x"),
        _ => panic!("a plain value must pass through"),
    }
}

#[test]
fn worker_replies_in_submission_order() {
    let mut pool = fresh_pool(2);
    let tasks = vec![DbTask::GetMessages, DbTask::GetMessages, DbTask::GetMessages];
    let outcomes = vec![ok_data("t1"), ok_data("t2"), ok_data("t3")];
    let alive = vec![true, true, true];
    let replies = run_worker(&mut pool, &tasks, outcomes, &alive);
    assert_eq!(replies.len(), 3);
    let expect = ["t1", "t2", "t3"];
    for (reply, want) in replies.into_iter().zip(expect) {
        match reply {
            Some(DbReply::Messages(Ok(ds))) => match &ds[0] {
                Data::Other(Value::Strand(s)) => assert_eq!(s, want),
                _ => panic!("unexpected reply payload"),
            },
            _ => panic!("every live receiver must get its reply, in order"),
        }
    }
    assert_eq!(pool.taken_count() + pool.idle_count(), 2);
}

#[test]
fn abandoned_reply_is_dropped_and_work_goes_on() {
    let mut pool = fresh_pool(1);
    let tasks = vec![DbTask::GetMessages, DbTask::GetMessages, DbTask::GetMessages];
    let outcomes = vec![ok_data("t1"), ok_data("t2"), ok_data("t3")];
    // The second caller dropped its receiver before the worker answered.
    let alive = vec![true, false, true];
    let replies = run_worker(&mut pool, &tasks, outcomes, &alive);
    assert!(replies[0].is_some());
    assert!(replies[1].is_none());
    assert!(replies[2].is_some());
    // The worker neither crashed nor lost the handle.
    assert_eq!(pool.taken_count(), 0);
    assert_eq!(pool.idle_count(), 1);
}

#[test]
fn failed_task_returns_handle_and_worker_continues() {
    let mut pool = fresh_pool(1);
    let tasks = vec![
        DbTask::CreateMessage { msg: Message { msg: "hello".to_owned() } },
        DbTask::GetMessages,
    ];
    let outcomes = vec![Err("engine rejected it".to_owned()), ok_data("later")];
    let alive = vec![true, true];
    let replies = run_worker(&mut pool, &tasks, outcomes, &alive);
    match &replies[0] {
        Some(DbReply::Created(Err(DbError::EngineCallFailure(m)))) => {
            assert_eq!(m, "engine rejected it")
        },
        _ => panic!("a failed create must answer with the engine's error"),
    }
    assert!(matches!(&replies[1], Some(DbReply::Messages(Ok(_)))));
    assert_eq!(pool.idle_count(), 1);
}

#[test]
fn context_installs_once_and_publishing_is_idempotent() {
    let mut ctx = DbContext::new();
    let mut first = fresh_handle();
    first.0.set_session(Session { ns: "first".to_owned(), db: "data".to_owned(), rt: true });
    ctx.install_direct(first);
    let mut second = fresh_handle();
    second.0.set_session(Session { ns: "second".to_owned(), db: "data".to_owned(), rt: true });
    // The first installation wins; the second is a no-op.
    ctx.install_direct(second);
    match &ctx.direct {
        Some(h) => assert_eq!(h.0.session().ns, "first"),
        None => panic!("the handle must be installed"),
    }
    assert!(ctx.publish_queue());
    assert!(!ctx.publish_queue());
    assert!(ctx.queue_published);
}

#[test]
fn access_guard_serializes_direct_sections() {
    let mut g = AccessGuard::new();
    assert!(g.available);
    g.acquire();
    // A second direct multi-step operation would have to wait here.
    assert!(!g.available);
    g.release();
    assert!(g.available);
}
