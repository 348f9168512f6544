use ella_core::cluster::LogEvent;
use ella_core::config::EllaConfig;
use ella_core::context::{first_error, EllaContext, EngineStatus};
use ella_core::error::{EngineError, Error};
use ella_core::ident::{SchemaId, SchemaRef, TableId, TableRef};
use ella_core::info::{ColumnInfo, TableInfo, TableKind, TensorType, TopicInfo, ViewInfo};
use ella_core::log::TransactionLog;
use ella_core::state::{decide_create, CreateOutcome, EllaState};
use ella_core::frame::{DataFrame, NamedColumn, Tensor, TensorData};
use ella_core::load_monitor::{InstrumentedBuffer, LoadLabels, LoadMetrics};
use ella_core::table::{Backend, CreateTable, GetTable, Table};

fn s(x: &str) -> String {
    x.to_string()
}

fn fresh() -> EllaState {
    EllaState::create("file:///tmp/store", EllaConfig::new("main", "public"), false, None).unwrap()
}

fn id(t: &str) -> TableId {
    TableId::new(&s("main"), &s("public"), &s(t))
}

fn topic2() -> TableInfo {
    TableInfo::Topic(TopicInfo::new(vec![
        ColumnInfo::new("time", TensorType::Timestamp, &[], false),
        ColumnInfo::new("value", TensorType::Int64, &[2], true),
    ]))
}

fn view() -> TableInfo {
    TableInfo::View(ViewInfo::new("SELECT * FROM events", false))
}

fn kind_of(state: &EllaState, t: &str) -> Option<TableKind> {
    state.table(&id(t)).map(|i| i.kind())
}

#[test]
fn fresh_state_has_default_namespace() {
    let state = fresh();
    assert!(state.cluster().catalog(&s("main")));
    assert!(state.cluster().schema(&SchemaId::new(&s("main"), &s("public"))));
    assert_eq!(state.cluster().num_catalogs(), 1);
    assert_eq!(state.cluster().num_schemas(), 1);
    assert_eq!(state.cluster().num_tables(), 0);
}

#[test]
fn create_catalog_twice_if_not_exists() {
    let mut state = fresh();
    assert!(state.create_catalog(&s("sales"), true).is_ok());
    assert!(state.create_catalog(&s("sales"), true).is_ok());
    assert_eq!(state.cluster().num_catalogs(), 2);
    assert!(state.cluster().catalog(&s("sales")));
    assert!(state.create_catalog(&s("main"), true).is_ok());
    assert_eq!(state.cluster().num_catalogs(), 2);
}

#[test]
fn create_catalog_existing_is_error() {
    let mut state = fresh();
    let r = state.create_catalog(&s("main"), false);
    assert!(matches!(r, Err(Error::Engine(EngineError::CatalogExists(ref n))) if n == "main"));
}

#[test]
fn create_schema_needs_catalog() {
    let mut state = fresh();
    let r = state.create_schema(&SchemaRef { catalog: Some(s("nope")), schema: s("x") }, false);
    assert!(matches!(r, Err(Error::Engine(EngineError::CatalogNotFound(ref n))) if n == "nope"));
    let ok = state.create_schema(&SchemaRef { catalog: None, schema: s("staging") }, false).unwrap();
    assert_eq!(ok.catalog, "main");
    assert_eq!(ok.schema, "staging");
    let again = state.create_schema(&SchemaRef { catalog: None, schema: s("staging") }, false);
    assert!(matches!(again, Err(Error::Engine(EngineError::SchemaExists(ref n))) if n == "staging"));
    assert!(state.create_schema(&SchemaRef { catalog: None, schema: s("staging") }, true).is_ok());
}

#[test]
fn creation_matrix_outcomes() {
    assert_eq!(decide_create(true, false, Some(TableKind::Topic), TableKind::Topic), CreateOutcome::Existing);
    assert_eq!(decide_create(true, false, Some(TableKind::View), TableKind::Topic), CreateOutcome::KindMismatch);
    assert_eq!(decide_create(false, true, Some(TableKind::Topic), TableKind::View), CreateOutcome::Replace);
    assert_eq!(decide_create(true, true, Some(TableKind::Topic), TableKind::Topic), CreateOutcome::ExclusiveFlags);
    assert_eq!(decide_create(true, true, None, TableKind::Topic), CreateOutcome::ExclusiveFlags);
    assert_eq!(decide_create(false, false, Some(TableKind::View), TableKind::View), CreateOutcome::Exists);
    assert_eq!(decide_create(false, false, None, TableKind::View), CreateOutcome::Register);
    assert_eq!(decide_create(true, false, None, TableKind::View), CreateOutcome::Register);
    assert_eq!(decide_create(false, true, None, TableKind::Topic), CreateOutcome::Register);
}

#[test]
fn replace_topic_with_view() {
    let mut state = fresh();
    state.create_table(id("t"), topic2(), false, false).unwrap();
    assert_eq!(kind_of(&state, "t"), Some(TableKind::Topic));
    let e = state.create_table(id("t"), view(), false, true).unwrap();
    assert_eq!(e.info.kind(), TableKind::View);
    assert_eq!(kind_of(&state, "t"), Some(TableKind::View));
    assert_eq!(state.cluster().num_tables(), 1);
}

#[test]
fn existing_table_returned_or_refused() {
    let mut state = fresh();
    state.create_table(id("t"), topic2(), false, false).unwrap();
    let kept = state.create_table(id("t"), topic2(), true, false).unwrap();
    assert_eq!(kept.info.kind(), TableKind::Topic);
    let mismatch = state.create_table(id("t"), view(), true, false);
    assert!(matches!(
        mismatch,
        Err(Error::Engine(EngineError::TableKind { expected: TableKind::View, actual: TableKind::Topic }))
    ));
    let exists = state.create_table(id("t"), topic2(), false, false);
    assert!(matches!(exists, Err(Error::Engine(EngineError::TableExists(ref t))) if t.table == "t"));
    assert_eq!(state.cluster().num_tables(), 1);
}

#[test]
fn exclusive_flags_fail_without_mutation() {
    let mut state = fresh();
    assert!(state.table(&id("t")).is_none());
    let r = state.create_table(id("t"), topic2(), true, true);
    assert!(matches!(r, Err(Error::Engine(EngineError::ExclusiveFlags))));
    assert!(state.table(&id("t")).is_none());
    assert_eq!(state.log().tail_len(), 2);

    state.create_table(id("t"), view(), false, false).unwrap();
    let r = state.create_table(id("t"), topic2(), true, true);
    assert!(matches!(r, Err(Error::Engine(EngineError::ExclusiveFlags))));
    assert_eq!(kind_of(&state, "t"), Some(TableKind::View));
}

#[test]
fn table_needs_schema() {
    let mut state = fresh();
    let r = state.create_table(TableId::new(&s("main"), &s("other"), &s("t")), view(), false, false);
    assert!(matches!(r, Err(Error::Engine(EngineError::SchemaNotFound(ref n))) if n == "other"));
    let r = state.create_table(TableId::new(&s("x"), &s("public"), &s("t")), view(), false, false);
    assert!(matches!(r, Err(Error::Engine(EngineError::CatalogNotFound(ref n))) if n == "x"));
}

#[test]
fn topic_and_view_kinds() {
    let mut state = fresh();
    let t = state
        .create_topic(id("a"), TopicInfo::new(vec![ColumnInfo::new("x", TensorType::Int32, &[], false)]), false, false)
        .unwrap();
    assert_eq!(t.info.kind(), TableKind::Topic);
    let v = state.create_view(id("a"), ViewInfo::new("SELECT 1", false), true, false);
    assert!(matches!(
        v,
        Err(Error::Engine(EngineError::TableKind { expected: TableKind::View, actual: TableKind::Topic }))
    ));
    let v = state.create_view(id("b"), ViewInfo::new("SELECT 1", true), false, false).unwrap();
    assert_eq!(v.info.kind(), TableKind::View);
}

#[test]
fn drop_table_rules() {
    let mut state = fresh();
    let r = state.drop_table(&id("t"), false);
    assert!(matches!(r, Err(Error::Engine(EngineError::TableNotFound(ref t))) if t.table == "t"));
    assert!(state.drop_table(&id("t"), true).is_ok());
    state.create_table(id("t"), view(), false, false).unwrap();
    assert!(state.drop_table(&id("t"), false).is_ok());
    assert!(state.table(&id("t")).is_none());
}

#[test]
fn restart_from_log_sees_same_tree() {
    let mut state = fresh();
    state.create_catalog(&s("c2"), false).unwrap();
    state.create_schema(&SchemaRef { catalog: Some(s("c2")), schema: s("s2") }, false).unwrap();
    state.create_table(id("events"), topic2(), false, false).unwrap();
    state.create_table(id("v"), view(), false, false).unwrap();
    state.snapshot();
    state.create_table(TableId::new(&s("c2"), &s("s2"), &s("late")), view(), false, false).unwrap();
    state.drop_table(&id("v"), false).unwrap();
    state.create_table(id("events"), view(), false, true).unwrap();
    assert_eq!(state.log().tail_len(), 4);

    let log = state.into_log();
    let reopened = EllaState::open("file:///tmp/store", Some(log)).unwrap();
    assert_eq!(reopened.cluster().num_catalogs(), 2);
    assert_eq!(reopened.cluster().num_schemas(), 2);
    assert_eq!(reopened.cluster().num_tables(), 2);
    assert_eq!(kind_of(&reopened, "events"), Some(TableKind::View));
    assert!(reopened.table(&id("v")).is_none());
    assert_eq!(
        reopened.table(&TableId::new(&s("c2"), &s("s2"), &s("late"))).map(|i| i.kind()),
        Some(TableKind::View)
    );
}

#[test]
fn fresh_datastore_topic_survives_restart() {
    let mut state = fresh();
    let columns = TopicInfo::new(vec![
        ColumnInfo::new("id", TensorType::Int64, &[], false),
        ColumnInfo::new("value", TensorType::Int64, &[2], true),
    ]);
    let entry = state.create_topic(id("events"), columns, false, false).unwrap();
    let publisher = Table::local(entry).publish().unwrap();

    let mut metrics = LoadMetrics::new();
    let (tx, rx) = flume::bounded::<DataFrame>(8);
    let sink = InstrumentedBuffer::new(tx, LoadLabels::new("events").with(&id("events")), &mut metrics);
    let frame = DataFrame::new(vec![
        NamedColumn::new("id", Tensor::new(TensorData::Int64(vec![1, 2, 3]), vec![3]).unwrap()),
        NamedColumn::new("value", Tensor::new(TensorData::Int64(vec![1, 2, 3, 4, 5, 6]), vec![3, 2]).unwrap()),
    ])
    .unwrap();
    publisher.write(frame, &sink, &mut metrics).unwrap();
    let wrong = DataFrame::new(vec![NamedColumn::new(
        "id",
        Tensor::new(TensorData::Int64(vec![1]), vec![1]).unwrap(),
    )])
    .unwrap();
    assert!(matches!(publisher.write(wrong, &sink, &mut metrics), Err(Error::ColumnCount(2, 1))));
    let rows: usize = rx.try_iter().map(|f| f.nrows()).sum();
    assert_eq!(rows, 3);

    state.snapshot();
    let reopened = EllaState::open("file:///tmp/store", Some(state.into_log())).unwrap();
    match reopened.table(&id("events")) {
        Some(TableInfo::Topic(t)) => assert_eq!(t.columns.len(), 2),
        _ => panic!("topic lost"),
    }
}

#[test]
fn log_compaction_keeps_later_events() {
    let mut log = TransactionLog::new(EllaConfig::new("main", "public"));
    log.append(LogEvent::CreateCatalog(s("a")));
    log.append(LogEvent::CreateSchema(SchemaId::new(&s("a"), &s("b"))));
    let pos = log.append(LogEvent::CreateTable(TableId::new(&s("a"), &s("b"), &s("t")), view()));
    assert_eq!(pos, 2);
    log.compact(2);
    assert_eq!(log.tail_len(), 1);
    assert_eq!(log.load_snapshot().num_tables(), 0);
    let restored = log.restore();
    assert_eq!(restored.num_catalogs(), 1);
    assert_eq!(restored.num_tables(), 1);
    log.create_snapshot();
    assert_eq!(log.tail_len(), 0);
    assert_eq!(log.load_snapshot().num_tables(), 1);
}

#[test]
fn open_without_log_is_invalid() {
    let r = EllaState::open("file:///nowhere", None);
    assert!(matches!(r, Err(Error::Engine(EngineError::InvalidDatastore(ref p))) if p == "file:///nowhere"));
}

#[test]
fn create_over_existing_datastore() {
    let log = fresh().into_log();
    let r = EllaState::create("file:///tmp/store", EllaConfig::new("x", "y"), false, Some(log));
    assert!(matches!(r, Err(Error::Engine(EngineError::DatastoreExists(_)))));
    let log = fresh().into_log();
    let opened = EllaState::create("file:///tmp/store", EllaConfig::new("x", "y"), true, Some(log)).unwrap();
    assert_eq!(opened.default_catalog(), "main");
}

#[test]
fn closed_state_refuses_changes() {
    let mut state = fresh();
    state.close();
    let r = state.create_catalog(&s("c"), false);
    assert!(matches!(r, Err(Error::Engine(EngineError::Closed))));
    assert!(state.create_catalog(&s("main"), true).is_ok());
    let r = state.create_table(id("t"), view(), false, false);
    assert!(matches!(r, Err(Error::Engine(EngineError::Closed))));
}

#[test]
fn builders_resolve_against_defaults() {
    let mut state = fresh();
    let created = CreateTable::new(TableRef::bare(&s("t")), topic2()).run(&mut state).unwrap();
    assert_eq!(created.id().catalog, "main");
    assert_eq!(created.backend(), Backend::Local);
    let got = GetTable::new(TableRef::bare(&s("t"))).run(&state).unwrap();
    assert_eq!(got.info().kind(), TableKind::Topic);
    let kept = GetTable::new(TableRef::bare(&s("t"))).or_create(view()).run(&mut state).unwrap();
    assert_eq!(kept.info().kind(), TableKind::Topic);
    let replaced = GetTable::new(TableRef::bare(&s("t"))).replace(view()).run(&mut state).unwrap();
    assert_eq!(replaced.info().kind(), TableKind::View);
    assert!(replaced.publish().is_err());
    GetTable::new(TableRef::bare(&s("t"))).drop().run(&mut state).unwrap();
    assert!(GetTable::new(TableRef::bare(&s("t"))).run(&state).is_none());
    assert!(GetTable::new(TableRef::bare(&s("t"))).drop().run(&mut state).is_err());
    assert!(GetTable::new(TableRef::bare(&s("t"))).drop().if_exists().run(&mut state).is_ok());
    let again = CreateTable::new(TableRef::bare(&s("u")), view()).if_not_exists().run(&mut state).unwrap();
    assert_eq!(again.info().kind(), TableKind::View);
    let or_rep = CreateTable::new(TableRef::bare(&s("u")), topic2()).or_replace().run(&mut state).unwrap();
    let p = or_rep.publish().unwrap();
    assert_eq!(p.num_columns(), 2);
    assert_eq!(p.table().table, "u");
}

#[test]
fn resolve_fills_defaults() {
    let r = TableRef { catalog: None, schema: Some(s("s")), table: s("t") };
    let id = r.resolve(&s("c0"), &s("s0"));
    assert_eq!((id.catalog.as_str(), id.schema.as_str(), id.table.as_str()), ("c0", "s", "t"));
    let sr = SchemaRef { catalog: Some(s("c")), schema: s("x") };
    let sid = sr.resolve(&s("c0"));
    assert_eq!((sid.catalog.as_str(), sid.schema.as_str()), ("c", "x"));
}

#[test]
fn context_lifecycle() {
    let mut ctx = EllaContext::new(fresh());
    assert_eq!(ctx.engine().status(), EngineStatus::Running);
    ctx.create_catalog(&s("other"), false).unwrap();
    ctx.create_topic(&TableRef::bare(&s("e")), TopicInfo::new(vec![]), false, false).unwrap();
    ctx.maintain();
    assert_eq!(ctx.state().log().tail_len(), 0);
    let ctx2 = ctx.use_catalog(&s("nope"));
    assert!(matches!(ctx2, Err(Error::Engine(EngineError::CatalogNotFound(_)))));

    let mut ctx = EllaContext::new(fresh());
    ctx.create_catalog(&s("other"), false).unwrap();
    let mut ctx = ctx.use_catalog(&s("other")).unwrap();
    assert_eq!(ctx.default_catalog(), "other");
    assert!(ctx.table(&TableRef::bare(&s("e"))).is_none());
    assert!(ctx.shutdown());
    assert_eq!(ctx.engine().status(), EngineStatus::ShuttingDown);
    assert!(!ctx.shutdown());
    assert!(ctx.finish_shutdown(Ok(())).is_ok());
    assert_eq!(ctx.engine().status(), EngineStatus::Stopped);
    assert!(!ctx.shutdown());
}

#[test]
fn shutdown_reports_first_error() {
    let a = first_error(Err(Error::EmptyList), Err(Error::ColumnCount(1, 2)));
    assert!(matches!(a, Err(Error::EmptyList)));
    let b = first_error(Ok(()), Err(Error::ColumnCount(1, 2)));
    assert!(matches!(b, Err(Error::ColumnCount(1, 2))));
    assert!(first_error(Ok(()), Ok(())).is_ok());
}

#[test]
fn publish_to_full_or_closed_queue() {
    let mut state = fresh();
    let columns = TopicInfo::new(vec![ColumnInfo::new("id", TensorType::Int64, &[], false)]);
    let entry = state.create_topic(id("q"), columns, false, false).unwrap();
    let publisher = Table::local(entry).publish().unwrap();
    let frame = || {
        DataFrame::new(vec![NamedColumn::new("id", Tensor::new(TensorData::Int64(vec![7]), vec![1]).unwrap())]).unwrap()
    };
    let mut metrics = LoadMetrics::new();
    let (tx, rx) = flume::bounded::<DataFrame>(1);
    let sink = InstrumentedBuffer::new(tx, LoadLabels::new("q"), &mut metrics);
    assert_eq!(sink.capacity(), Some(1));
    publisher.write(frame(), &sink, &mut metrics).unwrap();
    assert!(matches!(publisher.write(frame(), &sink, &mut metrics), Err(Error::Engine(EngineError::TableQueueFull))));
    drop(rx);
    assert!(matches!(publisher.write(frame(), &sink, &mut metrics), Err(Error::Engine(EngineError::TableClosed))));
}
