use ella_core::ident::{SchemaId, TableId};
use ella_core::load_monitor::{InstrumentedBuffer, LoadLabels, LoadMetrics, MonitorLoadExt, ReportLoad};

fn s(x: &str) -> String {
    x.to_string()
}

#[test]
fn capacity_recorded_and_load_reported() {
    let mut metrics = LoadMetrics::new();
    let (tx, rx) = flume::bounded::<u32>(4);
    let labels = LoadLabels::new("ingest").with_task("writer");
    let key = labels.duplicate();
    let buf = InstrumentedBuffer::new(tx, labels, &mut metrics);
    assert_eq!(metrics.capacity(&key), Some(4));
    assert_eq!(metrics.items(&key), None);
    buf.try_send(1, &mut metrics).unwrap();
    buf.try_send(2, &mut metrics).unwrap();
    assert_eq!(metrics.items(&key), Some(1));
    assert_eq!(buf.len(), 2);
    assert_eq!(buf.capacity(), Some(4));
    assert!(!buf.is_full());
    assert!(!buf.is_empty());
    assert_eq!(rx.recv().unwrap(), 1);
    assert_eq!(rx.recv().unwrap(), 2);
    assert_eq!(buf.inner().items(), 0);
}

#[test]
fn unbounded_records_no_capacity() {
    let mut metrics = LoadMetrics::new();
    let (tx, _rx) = flume::unbounded::<u8>();
    let buf = tx.monitor_load(LoadLabels::new("b"), &mut metrics);
    assert_eq!(metrics.capacity(&LoadLabels::new("b")), None);
    assert_eq!(buf.into_inner().max_items(), None);
}

#[test]
fn disabled_metrics_record_nothing() {
    let mut metrics = LoadMetrics::disabled();
    let (tx, _rx) = flume::bounded::<u8>(2);
    let buf = InstrumentedBuffer::new(tx, LoadLabels::new("b"), &mut metrics);
    buf.try_send(3, &mut metrics).unwrap();
    assert_eq!(metrics.capacity(&LoadLabels::new("b")), None);
    assert_eq!(metrics.items(&LoadLabels::new("b")), None);
}

#[test]
fn try_send_full_channel() {
    let mut metrics = LoadMetrics::new();
    let (tx, _rx) = flume::bounded::<u8>(1);
    let buf = InstrumentedBuffer::new(tx, LoadLabels::new("b"), &mut metrics);
    buf.try_send(1, &mut metrics).unwrap();
    assert!(buf.is_full());
    assert!(matches!(buf.try_send(2, &mut metrics), Err(flume::TrySendError::Full(2))));
    assert_eq!(metrics.items(&LoadLabels::new("b")), Some(1));
}

#[test]
fn labels_extend_from_ids() {
    let t = TableId::new(&s("c"), &s("s"), &s("t"));
    let l = LoadLabels::new("buf").with(&t);
    assert_eq!(l.catalog.as_deref(), Some("c"));
    assert_eq!(l.schema.as_deref(), Some("s"));
    assert_eq!(l.table.as_deref(), Some("t"));
    let l = LoadLabels::new("buf").with(&SchemaId::new(&s("c"), &s("s")));
    assert_eq!(l.table, None);
    assert_eq!(l.schema.as_deref(), Some("s"));
    let l = LoadLabels::new("buf").with(&s("only"));
    assert_eq!(l.catalog.as_deref(), Some("only"));
    assert!(l.same(&LoadLabels::new("buf").with(&s("only"))));
    assert!(!l.same(&LoadLabels::new("buf")));
}

#[test]
fn record_capacity_directly() {
    let mut metrics = LoadMetrics::new();
    let labels = LoadLabels::new("q");
    metrics.record_capacity(&labels, None);
    assert_eq!(metrics.capacity(&labels), None);
    metrics.record_capacity(&labels, Some(16));
    assert_eq!(metrics.capacity(&labels), Some(16));
    let (tx, _rx) = flume::bounded::<u8>(3);
    let buf = InstrumentedBuffer::new(tx, LoadLabels::new("q"), &mut metrics);
    assert_eq!(buf.recorded_capacity(), Some(3));
    assert_eq!(metrics.capacity(&labels), Some(3));
}

#[test]
fn try_send_hands_message_back_when_disconnected() {
    let mut metrics = LoadMetrics::new();
    let (tx, rx) = flume::bounded::<u8>(2);
    drop(rx);
    let buf = InstrumentedBuffer::new(tx, LoadLabels::new("d"), &mut metrics);
    assert!(matches!(buf.try_send(9, &mut metrics), Err(flume::TrySendError::Disconnected(9))));
}
