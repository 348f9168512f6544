//! Load monitoring of bounded channels: gauges of the items waiting in a
//! channel and of its capacity, kept in a metrics registry that is handed in.
use vstd::prelude::*;
use crate::ident::{SchemaId, TableId};

verus! {

/// flume's `Sender`, the sending end of a channel, carried through as it is.
#[verifier::external_type_specification]
#[verifier::external_body]
#[verifier::reject_recursive_types(T)]
pub struct ExSender<T>(flume::Sender<T>);

/// flume's `TrySendError`, which hands back a message that a full or
/// disconnected channel did not take. Its variants are public and read as
/// they stand.
#[verifier::external_type_specification]
#[verifier::reject_recursive_types(T)]
pub struct ExTrySendError<T>(flume::TrySendError<T>);

/// Relies on flume's `Sender::len`: the number of messages waiting in the
/// channel, which other handles may change at any time.
pub assume_specification<T>[ flume::Sender::<T>::len ](s: &flume::Sender<T>) -> usize;

/// Relies on flume's `Sender::capacity`: the bound of a bounded channel.
pub assume_specification<T>[ flume::Sender::<T>::capacity ](s: &flume::Sender<T>) -> Option<usize>;

/// Relies on flume's `Sender::is_full`.
pub assume_specification<T>[ flume::Sender::<T>::is_full ](s: &flume::Sender<T>) -> bool;

/// Relies on flume's `Sender::is_empty`.
pub assume_specification<T>[ flume::Sender::<T>::is_empty ](s: &flume::Sender<T>) -> bool;

/// Relies on flume's `Sender::try_send`: it never blocks, and fails only where
/// the channel is full or every receiver is gone, handing the message back.
pub assume_specification<T>[ flume::Sender::<T>::try_send ](s: &flume::Sender<T>, msg: T) -> (r: Result<(), flume::TrySendError<T>>)
    ensures
        r matches Err(e) ==> e == flume::TrySendError::Full(msg) || e == flume::TrySendError::Disconnected(msg),
;

/// A buffer whose load can be observed.
pub trait ReportLoad {
    /// The number of items in the buffer.
    fn items(&self) -> usize;

    /// The bound of the buffer, if it has one.
    fn max_items(&self) -> Option<usize>;
}

impl<T> ReportLoad for flume::Sender<T> {
    fn items(&self) -> usize {
        self.len()
    }

    fn max_items(&self) -> Option<usize> {
        self.capacity()
    }
}

/// The labels under which a buffer's gauges are kept.
#[derive(Debug)]
pub struct LoadLabels {
    pub catalog: Option<String>,
    pub schema: Option<String>,
    pub table: Option<String>,
    pub task: Option<String>,
    pub buffer: String,
}

pub struct LabelsModel {
    pub catalog: Option<Seq<char>>,
    pub schema: Option<Seq<char>>,
    pub table: Option<Seq<char>>,
    pub task: Option<Seq<char>>,
    pub buffer: Seq<char>,
}

pub open spec fn opt_view(o: Option<String>) -> Option<Seq<char>> {
    match o {
        Some(s) => Some(s@),
        None => None,
    }
}

impl View for LoadLabels {
    type V = LabelsModel;

    open spec fn view(&self) -> LabelsModel {
        LabelsModel {
            catalog: opt_view(self.catalog),
            schema: opt_view(self.schema),
            table: opt_view(self.table),
            task: opt_view(self.task),
            buffer: self.buffer@,
        }
    }
}

fn opt_same(a: &Option<String>, b: &Option<String>) -> (r: bool)
    ensures
        r == (opt_view(*a) == opt_view(*b)),
{
    match (a, b) {
        (Some(x), Some(y)) => *x == *y,
        (None, None) => true,
        _ => false,
    }
}

fn opt_copy(a: &Option<String>) -> (r: Option<String>)
    ensures
        opt_view(r) == opt_view(*a),
{
    match a {
        Some(x) => Some(x.clone()),
        None => None,
    }
}

/// A source of labels: the table, schema or catalog a buffer serves.
pub trait ExtendLoadLabels {
    spec fn extended(&self, labels: LabelsModel) -> LabelsModel;

    fn extend(&self, labels: &mut LoadLabels)
        ensures
            final(labels)@ == self.extended(old(labels)@),
    ;
}

impl ExtendLoadLabels for String {
    open spec fn extended(&self, labels: LabelsModel) -> LabelsModel {
        LabelsModel { catalog: Some(self@), ..labels }
    }

    fn extend(&self, labels: &mut LoadLabels) {
        labels.catalog = Some(self.clone());
    }
}

impl ExtendLoadLabels for SchemaId {
    open spec fn extended(&self, labels: LabelsModel) -> LabelsModel {
        LabelsModel { catalog: Some(self.catalog@), schema: Some(self.schema@), ..labels }
    }

    fn extend(&self, labels: &mut LoadLabels) {
        labels.catalog = Some(self.catalog.clone());
        labels.schema = Some(self.schema.clone());
    }
}

impl ExtendLoadLabels for TableId {
    open spec fn extended(&self, labels: LabelsModel) -> LabelsModel {
        LabelsModel { catalog: Some(self.catalog@), schema: Some(self.schema@), table: Some(self.table@), ..labels }
    }

    fn extend(&self, labels: &mut LoadLabels) {
        labels.catalog = Some(self.catalog.clone());
        labels.schema = Some(self.schema.clone());
        labels.table = Some(self.table.clone());
    }
}

impl LoadLabels {
    /// Labels that name only the buffer.
    pub fn new(buffer: &str) -> (r: LoadLabels)
        ensures
            r@ == (LabelsModel { catalog: None, schema: None, table: None, task: None, buffer: buffer@ }),
    {
        LoadLabels { catalog: None, schema: None, table: None, task: None, buffer: buffer.to_owned() }
    }

    /// These labels extended by `src`.
    pub fn with<T: ExtendLoadLabels>(self, src: &T) -> (r: LoadLabels)
        ensures
            r@ == src.extended(self@),
    {
        let mut labels = self;
        src.extend(&mut labels);
        labels
    }

    /// These labels with the task named.
    pub fn with_task(self, task: &str) -> (r: LoadLabels)
        ensures
            r@ == (LabelsModel { task: Some(task@), ..self@ }),
    {
        LoadLabels { task: Some(task.to_owned()), ..self }
    }

    pub fn same(&self, other: &LoadLabels) -> (r: bool)
        ensures
            r == (self@ == other@),
    {
        opt_same(&self.catalog, &other.catalog) && opt_same(&self.schema, &other.schema) && opt_same(
            &self.table,
            &other.table,
        ) && opt_same(&self.task, &other.task) && self.buffer == other.buffer
    }

    pub fn duplicate(&self) -> (r: LoadLabels)
        ensures
            r@ == self@,
    {
        LoadLabels {
            catalog: opt_copy(&self.catalog),
            schema: opt_copy(&self.schema),
            table: opt_copy(&self.table),
            task: opt_copy(&self.task),
            buffer: self.buffer.clone(),
        }
    }
}

/// One gauge per label set.
pub struct GaugeFamily {
    entries: Vec<(LoadLabels, usize)>,
}

impl GaugeFamily {
    pub closed spec fn entries_spec(&self) -> Seq<(LabelsModel, usize)> {
        self.entries@.map_values(|e: (LoadLabels, usize)| (e.0@, e.1))
    }

    /// The value of the gauge of `l`, if it was ever set.
    pub closed spec fn get_spec(&self, l: LabelsModel) -> Option<usize> {
        let s = self.entries_spec();
        if exists|i: int| 0 <= i < s.len() && (#[trigger] s[i]).0 == l {
            Some(s[choose|i: int| 0 <= i < s.len() && (#[trigger] s[i]).0 == l].1)
        } else {
            None
        }
    }

    pub closed spec fn wf(&self) -> bool {
        let s = self.entries_spec();
        forall|i: int, j: int|
            0 <= i < s.len() && 0 <= j < s.len() && i != j ==> (#[trigger] s[i]).0 != (#[trigger] s[j]).0
    }

    pub fn new() -> (r: GaugeFamily)
        ensures
            r.wf(),
            forall|l: LabelsModel| r.get_spec(l).is_none(),
    {
        let r = GaugeFamily { entries: Vec::new() };
        assert(r.entries_spec() =~= Seq::empty());
        r
    }

    fn find(&self, labels: &LoadLabels) -> (r: Option<usize>)
        requires
            self.wf(),
        ensures
            match r {
                Some(i) => i < self.entries_spec().len() && self.entries_spec()[i as int].0 == labels@,
                None => forall|i: int|
                    0 <= i < self.entries_spec().len() ==> (#[trigger] self.entries_spec()[i]).0 != labels@,
            },
    {
        let mut i: usize = 0;
        while i < self.entries.len()
            invariant
                i <= self.entries@.len(),
                forall|j: int| 0 <= j < i ==> (#[trigger] self.entries_spec()[j]).0 != labels@,
            decreases self.entries@.len() - i,
        {
            if self.entries[i].0.same(labels) {
                return Some(i);
            }
            i += 1;
        }
        None
    }

    /// The value of the gauge of `labels`, if it was ever set.
    pub fn get(&self, labels: &LoadLabels) -> (r: Option<usize>)
        requires
            self.wf(),
        ensures
            r == self.get_spec(labels@),
    {
        match self.find(labels) {
            Some(i) => {
                proof {
                    let s = self.entries_spec();
                    let k = choose|k: int| 0 <= k < s.len() && (#[trigger] s[k]).0 == labels@;
                    assert(s[i as int].0 == labels@);
                    assert(k == i);
                }
                Some(self.entries[i].1)
            },
            None => None,
        }
    }

    /// Sets the gauge of `labels` to `value`; the other gauges keep theirs.
    pub fn set(&mut self, labels: &LoadLabels, value: usize)
        requires
            old(self).wf(),
        ensures
            final(self).wf(),
            final(self).get_spec(labels@) == Some(value),
            forall|l: LabelsModel| l != labels@ ==> final(self).get_spec(l) == old(self).get_spec(l),
    {
        let ghost s0 = self.entries_spec();
        match self.find(labels) {
            Some(i) => {
                self.entries.set(i, (labels.duplicate(), value));
                let ghost s1 = self.entries_spec();
                assert(s1 =~= s0.update(i as int, (labels@, value)));
                assert forall|l: LabelsModel| l != labels@ implies self.get_spec(l) == old(self).get_spec(l) by {
                    if exists|k: int| 0 <= k < s0.len() && (#[trigger] s0[k]).0 == l {
                        let k = choose|k: int| 0 <= k < s0.len() && (#[trigger] s0[k]).0 == l;
                        assert(s1[k].0 == l);
                    }
                }
                proof {
                    let k = choose|k: int| 0 <= k < s1.len() && (#[trigger] s1[k]).0 == labels@;
                    assert(s1[i as int].0 == labels@);
                    assert(k == i);
                }
            },
            None => {
                self.entries.push((labels.duplicate(), value));
                let ghost s1 = self.entries_spec();
                assert(s1 =~= s0.push((labels@, value)));
                assert forall|l: LabelsModel| l != labels@ implies self.get_spec(l) == old(self).get_spec(l) by {
                    if exists|k: int| 0 <= k < s0.len() && (#[trigger] s0[k]).0 == l {
                        let k = choose|k: int| 0 <= k < s0.len() && (#[trigger] s0[k]).0 == l;
                        assert(s1[k].0 == l);
                    }
                }
                proof {
                    assert(s1[s0.len() as int].0 == labels@);
                    let k = choose|k: int| 0 <= k < s1.len() && (#[trigger] s1[k]).0 == labels@;
                    assert(k == s0.len());
                }
            },
        }
    }
}

/// The registry of buffer gauges. A disabled registry records nothing.
pub struct LoadMetrics {
    enabled: bool,
    items: GaugeFamily,
    capacity: GaugeFamily,
}

impl LoadMetrics {
    pub closed spec fn enabled_spec(&self) -> bool {
        self.enabled
    }

    pub closed spec fn items_spec(&self, l: LabelsModel) -> Option<usize> {
        self.items.get_spec(l)
    }

    pub closed spec fn capacity_spec(&self, l: LabelsModel) -> Option<usize> {
        self.capacity.get_spec(l)
    }

    pub closed spec fn wf(&self) -> bool {
        self.items.wf() && self.capacity.wf()
    }

    /// A registry that records.
    pub fn new() -> (r: LoadMetrics)
        ensures
            r.wf(),
            r.enabled_spec(),
            forall|l: LabelsModel| r.items_spec(l).is_none() && r.capacity_spec(l).is_none(),
    {
        LoadMetrics { enabled: true, items: GaugeFamily::new(), capacity: GaugeFamily::new() }
    }

    /// A registry that records nothing.
    pub fn disabled() -> (r: LoadMetrics)
        ensures
            r.wf(),
            !r.enabled_spec(),
            forall|l: LabelsModel| r.items_spec(l).is_none() && r.capacity_spec(l).is_none(),
    {
        LoadMetrics { enabled: false, items: GaugeFamily::new(), capacity: GaugeFamily::new() }
    }

    pub fn items(&self, labels: &LoadLabels) -> (r: Option<usize>)
        requires
            self.wf(),
        ensures
            r == self.items_spec(labels@),
    {
        self.items.get(labels)
    }

    pub fn capacity(&self, labels: &LoadLabels) -> (r: Option<usize>)
        requires
            self.wf(),
        ensures
            r == self.capacity_spec(labels@),
    {
        self.capacity.get(labels)
    }

    /// Records the bound of the buffer under `labels`, where it has one.
    pub fn record_capacity(&mut self, labels: &LoadLabels, capacity: Option<usize>)
        requires
            old(self).wf(),
        ensures
            final(self).wf(),
            final(self).enabled_spec() == old(self).enabled_spec(),
            forall|l: LabelsModel| final(self).items_spec(l) == old(self).items_spec(l),
            forall|l: LabelsModel| l != labels@ ==> final(self).capacity_spec(l) == old(self).capacity_spec(l),
            old(self).enabled_spec() && capacity is Some ==> final(self).capacity_spec(labels@) == capacity,
            !old(self).enabled_spec() || capacity is None ==> final(self).capacity_spec(labels@) == old(
                self,
            ).capacity_spec(labels@),
    {
        match capacity {
            Some(c) => self.set_capacity(labels, c),
            None => {},
        }
    }

    fn set_items(&mut self, labels: &LoadLabels, value: usize)
        requires
            old(self).wf(),
        ensures
            final(self).wf(),
            final(self).enabled_spec() == old(self).enabled_spec(),
            forall|l: LabelsModel| final(self).capacity_spec(l) == old(self).capacity_spec(l),
            old(self).enabled_spec() ==> final(self).items_spec(labels@) == Some(value),
            forall|l: LabelsModel|
                (l != labels@ || !old(self).enabled_spec()) ==> final(self).items_spec(l) == old(self).items_spec(l),
    {
        if self.enabled {
            self.items.set(labels, value);
        }
    }

    fn set_capacity(&mut self, labels: &LoadLabels, value: usize)
        requires
            old(self).wf(),
        ensures
            final(self).wf(),
            final(self).enabled_spec() == old(self).enabled_spec(),
            forall|l: LabelsModel| final(self).items_spec(l) == old(self).items_spec(l),
            old(self).enabled_spec() ==> final(self).capacity_spec(labels@) == Some(value),
            forall|l: LabelsModel|
                (l != labels@ || !old(self).enabled_spec()) ==> final(self).capacity_spec(l) == old(self).capacity_spec(
                    l,
                ),
    {
        if self.enabled {
            self.capacity.set(labels, value);
        }
    }
}

/// A buffer wrapped so that its load is reported at each use. Delivery is the
/// wrapped buffer's own.
#[derive(Debug)]
pub struct InstrumentedBuffer<T> {
    inner: T,
    labels: LoadLabels,
    /// The bound the buffer reported when it was wrapped.
    capacity: Option<usize>,
}

/// Wraps a buffer in load monitoring.
pub trait MonitorLoadExt: Sized {
    fn monitor_load(self, labels: LoadLabels, metrics: &mut LoadMetrics) -> (r: InstrumentedBuffer<Self>)
        requires
            old(metrics).wf(),
        ensures
            final(metrics).wf(),
            r.inner_spec() == self,
            r.labels_spec() == labels@,
    ;
}

impl<T: ReportLoad> MonitorLoadExt for T {
    fn monitor_load(self, labels: LoadLabels, metrics: &mut LoadMetrics) -> (r: InstrumentedBuffer<T>) {
        InstrumentedBuffer::new(self, labels, metrics)
    }
}

impl<T> InstrumentedBuffer<T> {
    pub closed spec fn inner_spec(&self) -> T {
        self.inner
    }

    pub closed spec fn labels_spec(&self) -> LabelsModel {
        self.labels@
    }

    pub fn inner(&self) -> (r: &T)
        ensures
            *r == self.inner_spec(),
    {
        &self.inner
    }

    pub fn inner_mut(&mut self) -> (r: &mut T)
        ensures
            *r == old(self).inner_spec(),
            final(self).inner_spec() == *final(r),
            final(self).labels_spec() == old(self).labels_spec(),
    {
        &mut self.inner
    }

    pub fn into_inner(self) -> (r: T)
        ensures
            r == self.inner_spec(),
    {
        self.inner
    }

    pub closed spec fn recorded_capacity_spec(&self) -> Option<usize> {
        self.capacity
    }

    /// The bound the buffer reported when it was wrapped.
    pub fn recorded_capacity(&self) -> (r: Option<usize>)
        ensures
            r == self.recorded_capacity_spec(),
    {
        self.capacity
    }

    pub fn labels(&self) -> (r: &LoadLabels)
        ensures
            r@ == self.labels_spec(),
    {
        &self.labels
    }
}

impl<T: ReportLoad> InstrumentedBuffer<T> {
    /// Wraps `inner`; a bounded buffer's capacity is recorded once, here.
    pub fn new(inner: T, labels: LoadLabels, metrics: &mut LoadMetrics) -> (r: InstrumentedBuffer<T>)
        requires
            old(metrics).wf(),
        ensures
            final(metrics).wf(),
            r.inner_spec() == inner,
            r.labels_spec() == labels@,
            final(metrics).enabled_spec() == old(metrics).enabled_spec(),
            forall|l: LabelsModel| final(metrics).items_spec(l) == old(metrics).items_spec(l),
            forall|l: LabelsModel| l != labels@ ==> final(metrics).capacity_spec(l) == old(metrics).capacity_spec(l),
            old(metrics).enabled_spec() && r.recorded_capacity_spec() is Some ==> final(metrics).capacity_spec(labels@)
                == r.recorded_capacity_spec(),
            !old(metrics).enabled_spec() || r.recorded_capacity_spec() is None ==> final(metrics).capacity_spec(labels@)
                == old(metrics).capacity_spec(labels@),
    {
        let capacity = inner.max_items();
        metrics.record_capacity(&labels, capacity);
        InstrumentedBuffer { inner, labels, capacity }
    }

    /// Records the number of items now in the buffer.
    pub fn report_load(&self, metrics: &mut LoadMetrics)
        requires
            old(metrics).wf(),
        ensures
            final(metrics).wf(),
            final(metrics).enabled_spec() == old(metrics).enabled_spec(),
            old(metrics).enabled_spec() ==> final(metrics).items_spec(self.labels_spec()) is Some,
            forall|l: LabelsModel|
                (l != self.labels_spec() || !old(metrics).enabled_spec()) ==> final(metrics).items_spec(l) == old(
                    metrics,
                ).items_spec(l),
            forall|l: LabelsModel| final(metrics).capacity_spec(l) == old(metrics).capacity_spec(l),
    {
        let n = self.inner.items();
        metrics.set_items(&self.labels, n);
    }
}

impl<M> InstrumentedBuffer<flume::Sender<M>> {
    /// Reports the load, then tries to send `msg` without blocking.
    pub fn try_send(&self, msg: M, metrics: &mut LoadMetrics) -> (r: Result<(), flume::TrySendError<M>>)
        requires
            old(metrics).wf(),
        ensures
            final(metrics).wf(),
            old(metrics).enabled_spec() ==> final(metrics).items_spec(self.labels_spec()) is Some,
            forall|l: LabelsModel| final(metrics).capacity_spec(l) == old(metrics).capacity_spec(l),
            forall|l: LabelsModel| l != self.labels_spec() ==> final(metrics).items_spec(l) == old(metrics).items_spec(l),
            r matches Err(e) ==> e == flume::TrySendError::Full(msg) || e == flume::TrySendError::Disconnected(msg),
    {
        self.report_load(metrics);
        self.inner.try_send(msg)
    }

    pub fn len(&self) -> usize {
        self.inner.len()
    }

    /// The bound of the channel, as it was read when the channel was wrapped;
    /// a flume channel keeps the bound it was made with.
    pub fn capacity(&self) -> (r: Option<usize>)
        ensures
            r == self.recorded_capacity_spec(),
    {
        self.capacity
    }

    pub fn is_full(&self) -> bool {
        self.inner.is_full()
    }

    pub fn is_empty(&self) -> bool {
        self.inner.is_empty()
    }
}

} // verus!
