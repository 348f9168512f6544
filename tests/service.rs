use ella_core::config::EllaConfig;
use ella_core::error::{EngineError, Error};
use ella_core::ident::{SchemaRef, TableRef};
use ella_core::info::{TableInfo, TableKind, ViewInfo};
use ella_core::lazy::Lazy;
use ella_core::service::{create_catalog, create_schema, create_table, get_config, get_table, set_config, ConfigScope};
use ella_core::state::EllaState;
use ella_core::table::Backend;

fn fresh() -> EllaState {
    EllaState::create("mem://", EllaConfig::new("main", "public"), false, None).unwrap()
}

fn view() -> TableInfo {
    TableInfo::View(ViewInfo::new("SELECT 1", false))
}

#[test]
fn service_table_requests() {
    let mut state = fresh();
    let t = TableRef::bare(&"v".to_string());
    assert!(get_table(&state, &t).is_none());
    assert!(matches!(create_table(&mut state, None, Some(view()), false, false), Err(Error::InvalidArgument(_))));
    assert!(matches!(create_table(&mut state, Some(TableRef::bare(&"v".to_string())), None, false, false), Err(Error::InvalidArgument(_))));
    let e = create_table(&mut state, Some(TableRef::bare(&"v".to_string())), Some(view()), false, false).unwrap();
    assert_eq!(e.id.schema, "public");
    let got = get_table(&state, &t).unwrap();
    assert_eq!(got.info.kind(), TableKind::View);
    assert_eq!(create_catalog(&mut state, &"c".to_string(), false).unwrap(), "c");
    let s = create_schema(&mut state, &SchemaRef { catalog: Some("c".to_string()), schema: "s".to_string() }, false).unwrap();
    assert_eq!((s.catalog.as_str(), s.schema.as_str()), ("c", "s"));
}

#[test]
fn service_config_scopes() {
    let mut state = fresh();
    assert!(matches!(get_config(&state, None), Err(Error::InvalidArgument(_))));
    assert!(matches!(get_config(&state, Some(ConfigScope::Cluster)), Err(Error::Unimplemented(_))));
    assert_eq!(get_config(&state, Some(ConfigScope::Connection)).unwrap().default_schema(), "public");
    let new = EllaConfig::new("main", "other").with_maintenance_interval_secs(5);
    assert!(matches!(set_config(&mut state, Some(ConfigScope::Cluster), new), Err(Error::Unimplemented(_))));
    assert_eq!(state.default_schema(), "public");
    let new = EllaConfig::new("main", "other").with_maintenance_interval_secs(5);
    let answer = set_config(&mut state, Some(ConfigScope::Connection), new).unwrap();
    assert_eq!(answer.maintenance_interval_secs(), 5);
    assert_eq!(state.default_schema(), "other");
    assert_eq!(state.config().maintenance_interval_secs(), 5);
}

#[test]
fn lazy_query_is_deferred() {
    let state = fresh();
    let q = state.query("SELECT count(*) FROM main.public.events");
    assert_eq!(q.plan(), "SELECT count(*) FROM main.public.events");
    assert_eq!(q.backend(), Backend::Local);
    assert_eq!(state.log().tail_len(), 2);
    let remote = Lazy::new("SELECT 1", Backend::Remote);
    assert_eq!(remote.finish(Ok(3u64)).unwrap(), 3);
    let failed = remote.finish::<u64>(Err("connection reset".to_string()));
    assert!(matches!(failed, Err(Error::Engine(EngineError::Execution(ref m))) if m == "connection reset"));
}

#[test]
fn worker_and_sql_errors() {
    assert!(matches!(EngineError::worker_panic("maintainer", "boom"), EngineError::Worker { ref id, ref error } if id == "maintainer" && error == "boom"));
    assert!(matches!(EngineError::invalid_sql("SELECT", "DROP"), EngineError::InvalidSql { ref expected, ref actual } if expected == "SELECT" && actual == "DROP"));
    assert!(matches!(EngineError::table_kind(TableKind::Topic, TableKind::View), EngineError::TableKind { expected: TableKind::Topic, actual: TableKind::View }));
    assert!(matches!(Error::cast(ella_core::info::TensorType::Int8, ella_core::info::TensorType::Bool), Error::Cast { .. }));
}
