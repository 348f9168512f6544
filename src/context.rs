//! The engine's lifecycle and the context through which a client works with a
//! session while the engine runs.
use vstd::prelude::*;
use crate::cluster::{Cluster, TableEntry};
use crate::config::EllaConfig;
use crate::error::{EngineError, Error};
use crate::ident::{SchemaId, SchemaRef, TableRef};
use crate::info::{InfoModel, TableInfo, TableKind, TopicInfo, ViewInfo};
use crate::state::{catalog_creation, entry_outcome, schema_creation, schema_outcome, table_creation, EllaState};

verus! {

/// The lifecycle of the engine. `Stopped` is final.
#[derive(PartialEq, Eq, Structural, Clone, Copy, Debug)]
pub enum EngineStatus {
    Created,
    Running,
    ShuttingDown,
    Stopped,
}

/// The first error of the two, or success if neither failed.
pub fn first_error(first: Result<(), Error>, second: Result<(), Error>) -> (r: Result<(), Error>)
    ensures
        first is Err ==> r == first,
        first is Ok ==> r == second,
{
    match first {
        Ok(()) => second,
        Err(e) => Err(e),
    }
}

/// The engine's background work: the period of log compaction and whether a
/// metrics server runs.
#[derive(Debug)]
pub struct Engine {
    status: EngineStatus,
    maintenance_interval_secs: u64,
    serve_metrics: bool,
}

impl Engine {
    pub closed spec fn status_spec(&self) -> EngineStatus {
        self.status
    }

    pub closed spec fn interval_spec(&self) -> u64 {
        self.maintenance_interval_secs
    }

    pub closed spec fn serve_metrics_spec(&self) -> bool {
        self.serve_metrics
    }

    /// An engine running by `config`.
    pub fn start(config: &EllaConfig) -> (r: Engine)
        ensures
            r.status_spec() == EngineStatus::Running,
            r.interval_spec() == config@.maintenance_interval_secs,
            r.serve_metrics_spec() == config@.serve_metrics,
    {
        Engine {
            status: EngineStatus::Running,
            maintenance_interval_secs: config.maintenance_interval_secs(),
            serve_metrics: config.serve_metrics(),
        }
    }

    pub fn status(&self) -> (r: EngineStatus)
        ensures
            r == self.status_spec(),
    {
        self.status
    }

    pub fn maintenance_interval_secs(&self) -> (r: u64)
        ensures
            r == self.interval_spec(),
    {
        self.maintenance_interval_secs
    }

    pub fn serve_metrics(&self) -> (r: bool)
        ensures
            r == self.serve_metrics_spec(),
    {
        self.serve_metrics
    }

    /// Moves a running engine to shutting down. Returns whether it did: a
    /// second call finds the engine no longer running and does nothing.
    pub fn begin_shutdown(&mut self) -> (r: bool)
        ensures
            r == (old(self).status_spec() == EngineStatus::Running),
            r ==> final(self).status_spec() == EngineStatus::ShuttingDown,
            !r ==> final(self).status_spec() == old(self).status_spec(),
            final(self).interval_spec() == old(self).interval_spec(),
            final(self).serve_metrics_spec() == old(self).serve_metrics_spec(),
    {
        if self.status == EngineStatus::Running {
            self.status = EngineStatus::ShuttingDown;
            true
        } else {
            false
        }
    }

    /// Ends a shutdown: the engine is stopped, and the first failure of the
    /// catalog close and of the snapshot write is reported.
    pub fn finish_shutdown(&mut self, closed: Result<(), Error>, snapshot_written: Result<(), Error>) -> (r: Result<
        (),
        Error,
    >)
        requires
            old(self).status_spec() == EngineStatus::ShuttingDown,
        ensures
            final(self).status_spec() == EngineStatus::Stopped,
            closed is Err ==> r == closed,
            closed is Ok ==> r == snapshot_written,
    {
        self.status = EngineStatus::Stopped;
        first_error(closed, snapshot_written)
    }
}

/// A session together with the engine that serves it.
pub struct EllaContext {
    state: EllaState,
    engine: Engine,
}

impl EllaContext {
    pub closed spec fn state_spec(&self) -> EllaState {
        self.state
    }

    pub closed spec fn engine_spec(&self) -> Engine {
        self.engine
    }

    pub open spec fn inv(&self) -> bool {
        self.state_spec().inv()
    }

    /// Starts an engine for `state`.
    pub fn new(state: EllaState) -> (r: EllaContext)
        requires
            state.inv(),
        ensures
            r.inv(),
            r.state_spec() == state,
            r.engine_spec().status_spec() == EngineStatus::Running,
            r.engine_spec().interval_spec() == state.config_spec()@.maintenance_interval_secs,
    {
        let engine = Engine::start(state.config());
        EllaContext { state, engine }
    }

    pub fn state(&self) -> (r: &EllaState)
        ensures
            *r == self.state_spec(),
    {
        &self.state
    }

    pub fn engine(&self) -> (r: &Engine)
        ensures
            *r == self.engine_spec(),
    {
        &self.engine
    }

    pub fn config(&self) -> (r: &EllaConfig)
        ensures
            *r == self.state_spec().config_spec(),
    {
        self.state.config()
    }

    pub fn cluster(&self) -> (r: &Cluster)
        ensures
            r.model() == self.state_spec().model(),
    {
        self.state.cluster()
    }

    pub fn default_catalog(&self) -> (r: &String)
        ensures
            r@ == self.state_spec().config_spec()@.default_catalog,
    {
        self.state.default_catalog()
    }

    pub fn default_schema(&self) -> (r: &String)
        ensures
            r@ == self.state_spec().config_spec()@.default_schema,
    {
        self.state.default_schema()
    }

    /// Makes `catalog` the default, which must be present.
    pub fn use_catalog(self, catalog: &String) -> (r: Result<EllaContext, Error>)
        requires
            self.inv(),
        ensures
            self.state_spec().model().has_catalog(catalog@) ==> (r matches Ok(c) && c.inv() && c.state_spec().config_spec()@
                == (crate::config::ConfigModel { default_catalog: catalog@, ..self.state_spec().config_spec()@ })
                && c.state_spec().model() == self.state_spec().model()),
            !self.state_spec().model().has_catalog(catalog@) ==> (r matches Err(
                Error::Engine(EngineError::CatalogNotFound(n)),
            ) && n@ == catalog@),
    {
        if !self.state.cluster().catalog(catalog) {
            return Err(Error::Engine(EngineError::CatalogNotFound(catalog.clone())));
        }
        let mut this = self;
        let config = this.state.config().duplicate().with_default_catalog(catalog);
        this.state.with_config(config);
        Ok(this)
    }

    /// Makes `schema`, in the default catalog, the default schema; both must
    /// be present.
    pub fn use_schema(self, schema: &String) -> (r: Result<EllaContext, Error>)
        requires
            self.inv(),
        ensures
            ({
                let m = self.state_spec().model();
                let c = self.state_spec().config_spec()@.default_catalog;
                &&& !m.has_catalog(c) ==> (r matches Err(Error::Engine(EngineError::CatalogNotFound(n))) && n@ == c)
                &&& m.has_catalog(c) && !m.has_schema((c, schema@)) ==> (r matches Err(
                    Error::Engine(EngineError::SchemaNotFound(n)),
                ) && n@ == schema@)
                &&& m.has_schema((c, schema@)) && m.has_catalog(c) ==> (r matches Ok(x) && x.inv()
                    && x.state_spec().config_spec()@ == (crate::config::ConfigModel {
                    default_schema: schema@,
                    ..self.state_spec().config_spec()@
                }) && x.state_spec().model() == m)
            }),
    {
        let catalog = self.state.default_catalog().clone();
        if !self.state.cluster().catalog(&catalog) {
            return Err(Error::Engine(EngineError::CatalogNotFound(catalog)));
        }
        if !self.state.cluster().schema(&SchemaId::new(&catalog, schema)) {
            return Err(Error::Engine(EngineError::SchemaNotFound(schema.clone())));
        }
        let mut this = self;
        let config = this.state.config().duplicate().with_default_schema(schema);
        this.state.with_config(config);
        Ok(this)
    }

    /// Creates a catalog (see [`EllaState::create_catalog`]).
    pub fn create_catalog(&mut self, name: &String, if_not_exists: bool) -> (r: Result<(), Error>)
        requires
            old(self).inv(),
        ensures
            final(self).inv(),
            final(self).engine_spec() == old(self).engine_spec(),
            final(self).state_spec().is_closed() == old(self).state_spec().is_closed(),
            final(self).state_spec().config_spec() == old(self).state_spec().config_spec(),
            r is Err ==> *final(self) == *old(self),
            catalog_creation(
                old(self).state_spec().model(),
                old(self).state_spec().is_closed(),
                name@,
                if_not_exists,
                r,
                final(self).state_spec().model(),
            ),
    {
        self.state.create_catalog(name, if_not_exists)
    }

    /// Creates a schema (see [`EllaState::create_schema`]).
    pub fn create_schema(&mut self, schema: &SchemaRef, if_not_exists: bool) -> (r: Result<SchemaId, Error>)
        requires
            old(self).inv(),
        ensures
            final(self).inv(),
            final(self).engine_spec() == old(self).engine_spec(),
            final(self).state_spec().is_closed() == old(self).state_spec().is_closed(),
            final(self).state_spec().config_spec() == old(self).state_spec().config_spec(),
            r is Err ==> *final(self) == *old(self),
            schema_creation(
                old(self).state_spec().model(),
                old(self).state_spec().is_closed(),
                schema.spec_resolve(old(self).state_spec().config_spec()@.default_catalog),
                if_not_exists,
                schema_outcome(r),
                final(self).state_spec().model(),
            ),
    {
        self.state.create_schema(schema, if_not_exists)
    }

    /// Creates a table named by a reference resolved against the defaults, by
    /// the table-creation rules.
    pub fn create_table(&mut self, table: &TableRef, info: TableInfo, if_not_exists: bool, or_replace: bool) -> (r:
        Result<TableEntry, Error>)
        requires
            old(self).inv(),
        ensures
            final(self).inv(),
            final(self).engine_spec() == old(self).engine_spec(),
            final(self).state_spec().is_closed() == old(self).state_spec().is_closed(),
            final(self).state_spec().config_spec() == old(self).state_spec().config_spec(),
            r is Err ==> *final(self) == *old(self),
            table_creation(
                old(self).state_spec().model(),
                old(self).state_spec().is_closed(),
                table.spec_resolve(
                    old(self).state_spec().config_spec()@.default_catalog,
                    old(self).state_spec().config_spec()@.default_schema,
                ),
                info@,
                if_not_exists,
                or_replace,
                entry_outcome(r),
                final(self).state_spec().model(),
            ),
    {
        let id = self.state.resolve(table);
        self.state.create_table(id, info, if_not_exists, or_replace)
    }

    /// Creates a topic named by a reference resolved against the defaults.
    pub fn create_topic(&mut self, table: &TableRef, info: TopicInfo, if_not_exists: bool, or_replace: bool) -> (r:
        Result<TableEntry, Error>)
        requires
            old(self).inv(),
        ensures
            final(self).inv(),
            final(self).engine_spec() == old(self).engine_spec(),
            final(self).state_spec().is_closed() == old(self).state_spec().is_closed(),
            final(self).state_spec().config_spec() == old(self).state_spec().config_spec(),
            r is Err ==> *final(self) == *old(self),
            r matches Ok(e) ==> e.info@.kind() == TableKind::Topic,
            table_creation(
                old(self).state_spec().model(),
                old(self).state_spec().is_closed(),
                table.spec_resolve(
                    old(self).state_spec().config_spec()@.default_catalog,
                    old(self).state_spec().config_spec()@.default_schema,
                ),
                InfoModel::Topic(info@),
                if_not_exists,
                or_replace,
                entry_outcome(r),
                final(self).state_spec().model(),
            ),
    {
        let id = self.state.resolve(table);
        self.state.create_topic(id, info, if_not_exists, or_replace)
    }

    /// Creates a view named by a reference resolved against the defaults.
    pub fn create_view(&mut self, table: &TableRef, info: ViewInfo, if_not_exists: bool, or_replace: bool) -> (r:
        Result<TableEntry, Error>)
        requires
            old(self).inv(),
        ensures
            final(self).inv(),
            final(self).engine_spec() == old(self).engine_spec(),
            final(self).state_spec().is_closed() == old(self).state_spec().is_closed(),
            final(self).state_spec().config_spec() == old(self).state_spec().config_spec(),
            r is Err ==> *final(self) == *old(self),
            r matches Ok(e) ==> e.info@.kind() == TableKind::View,
            table_creation(
                old(self).state_spec().model(),
                old(self).state_spec().is_closed(),
                table.spec_resolve(
                    old(self).state_spec().config_spec()@.default_catalog,
                    old(self).state_spec().config_spec()@.default_schema,
                ),
                InfoModel::View(info@.0, info@.1),
                if_not_exists,
                or_replace,
                entry_outcome(r),
                final(self).state_spec().model(),
            ),
    {
        let id = self.state.resolve(table);
        self.state.create_view(id, info, if_not_exists, or_replace)
    }

    /// The definition of the table a reference names, if it is registered.
    pub fn table(&self, table: &TableRef) -> (r: Option<&TableInfo>)
        requires
            self.inv(),
        ensures
            ({
                let c = self.state_spec().config_spec()@;
                let k = table.spec_resolve(c.default_catalog, c.default_schema);
                match r {
                    Some(info) => self.state_spec().model().table(k) == Some(info@),
                    None => self.state_spec().model().table(k).is_none(),
                }
            }),
    {
        let id = self.state.resolve(table);
        self.state.table(&id)
    }

    /// One cycle of background maintenance: while the engine runs, the log's
    /// tail is folded into a snapshot.
    pub fn maintain(&mut self)
        requires
            old(self).inv(),
        ensures
            final(self).inv(),
            final(self).state_spec().model() == old(self).state_spec().model(),
            final(self).engine_spec() == old(self).engine_spec(),
    {
        if self.engine.status() == EngineStatus::Running {
            self.state.snapshot();
        }
    }

    /// Shuts the engine down, once: the catalog is closed to changes and the
    /// log is folded into a final snapshot. Returns whether this call did so;
    /// a later call does nothing. The caller then stops the background work,
    /// stores the log and ends the shutdown with [`Engine::finish_shutdown`].
    pub fn shutdown(&mut self) -> (r: bool)
        requires
            old(self).inv(),
        ensures
            final(self).inv(),
            final(self).state_spec().model() == old(self).state_spec().model(),
            r == (old(self).engine_spec().status_spec() == EngineStatus::Running),
            r ==> final(self).state_spec().is_closed() && final(self).state_spec().log_tail_empty()
                && final(self).engine_spec().status_spec() == EngineStatus::ShuttingDown,
            !r ==> final(self).state_spec() == old(self).state_spec() && final(self).engine_spec() == old(self).engine_spec(),
    {
        if self.engine.begin_shutdown() {
            self.state.close();
            self.state.snapshot();
            true
        } else {
            false
        }
    }

    /// Ends a shutdown begun by [`EllaContext::shutdown`]; see
    /// [`Engine::finish_shutdown`].
    pub fn finish_shutdown(&mut self, snapshot_written: Result<(), Error>) -> (r: Result<(), Error>)
        requires
            old(self).engine_spec().status_spec() == EngineStatus::ShuttingDown,
        ensures
            final(self).engine_spec().status_spec() == EngineStatus::Stopped,
            final(self).state_spec() == old(self).state_spec(),
            r == snapshot_written,
    {
        self.engine.finish_shutdown(Ok(()), snapshot_written)
    }

    /// Hands the session back.
    pub fn into_state(self) -> (r: EllaState)
        ensures
            r == self.state_spec(),
    {
        self.state
    }
}

} // verus!
