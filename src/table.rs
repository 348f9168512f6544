//! Table handles and the builders that look tables up, create, replace and
//! drop them.
use vstd::prelude::*;
use crate::cluster::{EventModel, TableEntry};
use crate::error::{EngineError, Error};
use crate::ident::{TableId, TableKey, TableRef};
use crate::info::{ColumnInfo, InfoModel, TableInfo, TableKind};
use crate::state::{created, table_creation, CreateOutcome, EllaState};
use crate::frame::DataFrame;
use crate::load_monitor::{InstrumentedBuffer, LoadMetrics};

verus! {

/// Where a table's operations are carried out.
#[derive(PartialEq, Eq, Structural, Clone, Copy, Debug)]
pub enum Backend {
    Local,
    Remote,
}

/// A handle on a table, served by the local engine or by a remote peer.
#[derive(Debug)]
pub struct Table {
    id: TableId,
    info: TableInfo,
    backend: Backend,
}

/// Writes rows into a topic.
#[derive(Debug)]
pub struct Publisher {
    table: TableId,
    columns: Vec<ColumnInfo>,
}

impl Publisher {
    pub closed spec fn table_spec(&self) -> TableKey {
        self.table@
    }

    pub closed spec fn columns_spec(&self) -> Seq<crate::info::ColumnModel> {
        self.columns@.map_values(|c: ColumnInfo| c@)
    }

    pub fn table(&self) -> (r: &TableId)
        ensures
            r@ == self.table_spec(),
    {
        &self.table
    }

    pub fn num_columns(&self) -> (r: usize)
        ensures
            r == self.columns_spec().len(),
    {
        self.columns.len()
    }

    /// Checks that `frame` has the topic's layout: as many columns, each of the
    /// element type of the topic's column at its position.
    pub fn validate(&self, frame: &DataFrame) -> (r: Result<(), Error>)
        ensures
            ({
                let cols = self.columns_spec();
                let f = frame.view_spec();
                &&& cols.len() != f.len() ==> r == Err::<(), Error>(Error::ColumnCount(cols.len() as usize, f.len() as usize))
                &&& cols.len() == f.len() ==> (r is Ok <==> forall|i: int| 0 <= i < f.len() ==> (#[trigger] f[i]).1.0 == cols[i].1)
                &&& (r matches Err(Error::Cast { to, from }) ==> exists|i: int|
                    0 <= i < f.len() && cols[i].1 == to && (#[trigger] f[i]).1.0 == from && from != to)
                &&& cols.len() == f.len() && r is Err ==> (r matches Err(Error::Cast { .. }))
                &&& (r matches Err(Error::ColumnCount(_, _))) ==> cols.len() != f.len()
            }),
    {
        let n = frame.ncols();
        if self.columns.len() != n {
            return Err(Error::ColumnCount(self.columns.len(), n));
        }
        let mut i: usize = 0;
        while i < n
            invariant
                i <= n,
                n == frame.view_spec().len(),
                self.columns_spec().len() == n,
                forall|j: int| 0 <= j < i ==> (#[trigger] frame.view_spec()[j]).1.0 == self.columns_spec()[j].1,
            decreases n - i,
        {
            let want = self.columns[i].data_type;
            let got = frame.column(i).tensor().tensor_type();
            if want != got {
                assert(frame.view_spec()[i as int].1.0 == got);
                return Err(Error::cast(want, got));
            }
            i += 1;
        }
        Ok(())
    }

    /// Checks `frame` against the topic's layout, then hands it to the
    /// topic's ingestion channel without waiting: a full channel is a full
    /// table queue, and one whose receivers are gone a closed table.
    pub fn write(&self, frame: DataFrame, sink: &InstrumentedBuffer<flume::Sender<DataFrame>>, metrics: &mut LoadMetrics) -> (r: Result<(), Error>)
        requires
            old(metrics).wf(),
        ensures
            final(metrics).wf(),
            ({
                let cols = self.columns_spec();
                let f = frame.view_spec();
                &&& cols.len() != f.len() ==> r == Err::<(), Error>(Error::ColumnCount(cols.len() as usize, f.len() as usize))
                &&& (cols.len() == f.len() && exists|i: int| 0 <= i < f.len() && (#[trigger] f[i]).1.0 != cols[i].1) ==> (r matches Err(Error::Cast { .. }))
                &&& (r matches Err(Error::ColumnCount(_, _))) ==> cols.len() != f.len()
                &&& (r matches Err(Error::Cast { to, from }) ==> exists|i: int|
                    0 <= i < f.len() && cols[i].1 == to && (#[trigger] f[i]).1.0 == from && from != to)
                &&& (cols.len() == f.len() && forall|i: int| 0 <= i < f.len() ==> (#[trigger] f[i]).1.0 == cols[i].1)
                    ==> (r is Ok || (r matches Err(Error::Engine(EngineError::TableClosed))) || (r matches Err(Error::Engine(EngineError::TableQueueFull))))
                &&& r is Err ==> (r matches Err(Error::Cast { .. })) || (r matches Err(Error::ColumnCount(_, _))) || (r matches Err(Error::Engine(EngineError::TableClosed))) || (r matches Err(Error::Engine(EngineError::TableQueueFull)))
            }),
    {
        match self.validate(&frame) {
            Ok(()) => {},
            Err(e) => {
                return Err(e);
            },
        }
        match sink.try_send(frame, metrics) {
            Ok(()) => Ok(()),
            Err(flume::TrySendError::Full(_)) => Err(Error::Engine(EngineError::TableQueueFull)),
            Err(flume::TrySendError::Disconnected(_)) => Err(Error::Engine(EngineError::TableClosed)),
        }
    }
}

impl Table {
    pub closed spec fn id_spec(&self) -> TableKey {
        self.id@
    }

    pub closed spec fn info_spec(&self) -> InfoModel {
        self.info@
    }

    pub closed spec fn backend_spec(&self) -> Backend {
        self.backend
    }

    /// A handle on a table of the local engine.
    pub fn local(entry: TableEntry) -> (r: Table)
        ensures
            r.id_spec() == entry.id@,
            r.info_spec() == entry.info@,
            r.backend_spec() == Backend::Local,
    {
        Table { id: entry.id, info: entry.info, backend: Backend::Local }
    }

    /// A handle on a table that a remote peer serves.
    pub fn remote(entry: TableEntry) -> (r: Table)
        ensures
            r.id_spec() == entry.id@,
            r.info_spec() == entry.info@,
            r.backend_spec() == Backend::Remote,
    {
        Table { id: entry.id, info: entry.info, backend: Backend::Remote }
    }

    pub fn id(&self) -> (r: &TableId)
        ensures
            r@ == self.id_spec(),
    {
        &self.id
    }

    pub fn info(&self) -> (r: TableInfo)
        ensures
            r@ == self.info_spec(),
    {
        self.info.duplicate()
    }

    pub fn backend(&self) -> (r: Backend)
        ensures
            r == self.backend_spec(),
    {
        self.backend
    }

    /// A publisher for the table, which must be a topic.
    pub fn publish(&self) -> (r: Result<Publisher, Error>)
        ensures
            self.info_spec() matches InfoModel::Topic(cols) ==> (r matches Ok(p) && p.table_spec() == self.id_spec()
                && p.columns_spec() == cols),
            self.info_spec() is View ==> r == Err::<Publisher, Error>(
                Error::Engine(EngineError::TableKind { expected: TableKind::Topic, actual: TableKind::View }),
            ),
    {
        match &self.info {
            TableInfo::Topic(t) => {
                let copy = t.duplicate();
                let p = Publisher { table: self.id.duplicate(), columns: copy.columns };
                assert(p.columns_spec() =~= copy@);
                Ok(p)
            },
            TableInfo::View(_) => Err(Error::Engine(EngineError::table_kind(TableKind::Topic, TableKind::View))),
        }
    }
}

/// Looks a table up by a reference resolved against the session's defaults.
#[derive(Debug)]
pub struct GetTable {
    table: TableRef,
}

/// Returns the table if it exists, and creates it otherwise.
#[derive(Debug)]
pub struct GetOrCreateTable {
    table: TableRef,
    info: TableInfo,
}

/// Creates a table; fails if one of that name exists.
#[derive(Debug)]
pub struct CreateTable {
    table: TableRef,
    info: TableInfo,
}

/// Creates a table, replacing one of that name.
#[derive(Debug)]
pub struct CreateOrReplaceTable(CreateTable);

/// Drops a table.
#[derive(Debug)]
pub struct DropTable {
    table: TableRef,
    if_exists: bool,
}

/// The name that `table` resolves to in `state`.
pub open spec fn resolved(state: &EllaState, table: &TableRef) -> TableKey {
    table.spec_resolve(state.config_spec()@.default_catalog, state.config_spec()@.default_schema)
}

/// A builder's result as names and definitions.
pub open spec fn table_outcome(r: Result<Table, Error>) -> Result<(TableKey, InfoModel), Error> {
    match r {
        Ok(t) => Ok((t.id_spec(), t.info_spec())),
        Err(err) => Err(err),
    }
}

impl GetTable {
    pub closed spec fn table_spec(&self) -> &TableRef {
        &self.table
    }

    pub fn new(table: TableRef) -> (r: GetTable)
        ensures
            r.table_spec() == table,
    {
        GetTable { table }
    }

    pub fn or_create(self, info: TableInfo) -> (r: GetOrCreateTable)
        ensures
            r.table_spec() == self.table_spec(),
            r.info_spec() == info@,
    {
        GetOrCreateTable { table: self.table, info }
    }

    pub fn replace(self, info: TableInfo) -> (r: CreateOrReplaceTable)
        ensures
            r.table_spec() == self.table_spec(),
            r.info_spec() == info@,
    {
        CreateOrReplaceTable(CreateTable { table: self.table, info })
    }

    pub fn drop(self) -> (r: DropTable)
        ensures
            r.table_spec() == self.table_spec(),
            !r.if_exists_spec(),
    {
        DropTable { table: self.table, if_exists: false }
    }

    /// The table, if it is registered.
    pub fn run(&self, state: &EllaState) -> (r: Option<Table>)
        requires
            state.inv(),
        ensures
            match r {
                Some(t) => t.id_spec() == resolved(state, self.table_spec()) && state.model().table(t.id_spec()) == Some(
                    t.info_spec(),
                ) && t.backend_spec() == Backend::Local,
                None => state.model().table(resolved(state, self.table_spec())).is_none(),
            },
    {
        let id = state.resolve(&self.table);
        match state.table(&id) {
            Some(info) => Some(Table::local(TableEntry { id: id.duplicate(), info: info.duplicate() })),
            None => None,
        }
    }
}

impl GetOrCreateTable {
    pub closed spec fn table_spec(&self) -> &TableRef {
        &self.table
    }

    pub closed spec fn info_spec(&self) -> InfoModel {
        self.info@
    }

    /// The registered table of that name, or else a new one from the
    /// definition, by the table-creation rules with `if_not_exists`.
    pub fn run(self, state: &mut EllaState) -> (r: Result<Table, Error>)
        requires
            old(state).inv(),
        ensures
            final(state).inv(),
            final(state).config_spec() == old(state).config_spec(),
            r is Err ==> *final(state) == *old(state),
            r matches Ok(t) ==> t.backend_spec() == Backend::Local,
            !old(state).model().has_table(resolved(old(state), self.table_spec())) ==> table_creation(
                old(state).model(),
                old(state).is_closed(),
                resolved(old(state), self.table_spec()),
                self.info_spec(),
                true, false,
                table_outcome(r),
                final(state).model(),
            ),
            ({
                let m = old(state).model();
                let k = resolved(old(state), self.table_spec());
                &&& m.has_table(k) ==> (r matches Ok(t) && t.id_spec() == k && Some(t.info_spec()) == m.table(k))
                    && final(state).model() == m
                &&& !m.has_table(k) ==> {
                    &&& r is Err ==> final(state).model() == m
                    &&& r matches Ok(t) ==> t.id_spec() == k && t.info_spec() == self.info_spec()
                        && final(state).model() == m.apply(EventModel::CreateTable(k, self.info_spec()))
                }
            }),
    {
        let id = state.resolve(&self.table);
        let found = match state.table(&id) {
            Some(info) => Some(info.duplicate()),
            None => None,
        };
        match found {
            Some(info) => Ok(Table::local(TableEntry { id, info })),
            None => {
                let r = state.create_table(id, self.info, true, false);
                match r {
                    Ok(e) => Ok(Table::local(e)),
                    Err(e) => Err(e),
                }
            },
        }
    }
}

impl CreateTable {
    pub closed spec fn table_spec(&self) -> &TableRef {
        &self.table
    }

    pub closed spec fn info_spec(&self) -> InfoModel {
        self.info@
    }

    pub fn new(table: TableRef, info: TableInfo) -> (r: CreateTable)
        ensures
            r.table_spec() == table,
            r.info_spec() == info@,
    {
        CreateTable { table, info }
    }

    pub fn if_not_exists(self) -> (r: GetOrCreateTable)
        ensures
            r.table_spec() == self.table_spec(),
            r.info_spec() == self.info_spec(),
    {
        GetOrCreateTable { table: self.table, info: self.info }
    }

    pub fn or_replace(self) -> (r: CreateOrReplaceTable)
        ensures
            r.table_spec() == self.table_spec(),
            r.info_spec() == self.info_spec(),
    {
        CreateOrReplaceTable(self)
    }

    /// Creates the table by the table-creation rules with neither flag.
    pub fn run(self, state: &mut EllaState) -> (r: Result<Table, Error>)
        requires
            old(state).inv(),
        ensures
            final(state).inv(),
            final(state).config_spec() == old(state).config_spec(),
            r is Err ==> *final(state) == *old(state),
            r matches Ok(t) ==> t.backend_spec() == Backend::Local,
            table_creation(
                old(state).model(),
                old(state).is_closed(),
                resolved(old(state), self.table_spec()),
                self.info_spec(),
                false, false,
                table_outcome(r),
                final(state).model(),
            ),
            ({
                let m = old(state).model();
                let k = resolved(old(state), self.table_spec());
                &&& r is Err ==> final(state).model() == m
                &&& (r matches Ok(t) ==> t.id_spec() == k && t.info_spec() == self.info_spec()
                    && final(state).model() == m.apply(EventModel::CreateTable(k, self.info_spec())))
                &&& m.has_table(k) ==> (r matches Err(Error::Engine(EngineError::TableExists(t))) && t@ == k)
            }),
    {
        let id = state.resolve(&self.table);
        proof {
            state.lemma_inv();
            if state.model().has_table(id@) {
                crate::cluster::lemma_table_in_namespace(state.model(), id@);
            }
        }
        match state.create_table(id, self.info, false, false) {
            Ok(e) => Ok(Table::local(e)),
            Err(e) => Err(e),
        }
    }
}

impl CreateOrReplaceTable {
    pub closed spec fn table_spec(&self) -> &TableRef {
        self.0.table_spec()
    }

    pub closed spec fn info_spec(&self) -> InfoModel {
        self.0.info_spec()
    }

    /// Creates the table, dropping one of that name first.
    pub fn run(self, state: &mut EllaState) -> (r: Result<Table, Error>)
        requires
            old(state).inv(),
        ensures
            final(state).inv(),
            final(state).config_spec() == old(state).config_spec(),
            r is Err ==> *final(state) == *old(state),
            r matches Ok(t) ==> t.backend_spec() == Backend::Local,
            table_creation(
                old(state).model(),
                old(state).is_closed(),
                resolved(old(state), self.table_spec()),
                self.info_spec(),
                false, true,
                table_outcome(r),
                final(state).model(),
            ),
            ({
                let m = old(state).model();
                let k = resolved(old(state), self.table_spec());
                &&& r is Err ==> final(state).model() == m
                &&& (r matches Ok(t) ==> t.id_spec() == k && t.info_spec() == self.info_spec()
                    && final(state).model() == created(m, if m.has_table(k) { CreateOutcome::Replace } else { CreateOutcome::Register }, k, self.info_spec()))
                &&& m.has_table(k) && !old(state).is_closed() ==> r is Ok
            }),
    {
        let inner = self.0;
        let id = state.resolve(&inner.table);
        proof {
            state.lemma_inv();
            if state.model().has_table(id@) {
                crate::cluster::lemma_table_in_namespace(state.model(), id@);
            }
        }
        match state.create_table(id, inner.info, false, true) {
            Ok(e) => Ok(Table::local(e)),
            Err(e) => Err(e),
        }
    }
}

impl DropTable {
    pub closed spec fn table_spec(&self) -> &TableRef {
        &self.table
    }

    pub closed spec fn if_exists_spec(&self) -> bool {
        self.if_exists
    }

    /// Also succeeds where the table does not exist.
    pub fn if_exists(self) -> (r: DropTable)
        ensures
            r.table_spec() == self.table_spec(),
            r.if_exists_spec(),
    {
        DropTable { table: self.table, if_exists: true }
    }

    /// Drops the table.
    pub fn run(self, state: &mut EllaState) -> (r: Result<(), Error>)
        requires
            old(state).inv(),
        ensures
            final(state).inv(),
            final(state).config_spec() == old(state).config_spec(),
            ({
                let m = old(state).model();
                let k = resolved(old(state), self.table_spec());
                &&& r is Ok ==> final(state).model() == m.apply(EventModel::DropTable(k))
                &&& r is Err ==> final(state).model() == m
                &&& !m.has_table(k) && self.if_exists_spec() ==> r is Ok
                &&& !m.has_table(k) && !self.if_exists_spec() ==> (r matches Err(
                    Error::Engine(EngineError::TableNotFound(t)),
                ) && t@ == k)
                &&& m.has_table(k) && !old(state).is_closed() ==> r is Ok
            }),
    {
        let id = state.resolve(&self.table);
        state.drop_table(&id, self.if_exists)
    }
}

} // verus!
