//! Session state: the log, the catalog tree restored from it, and the rules
//! by which catalogs, schemas and tables are created and dropped.
use vstd::prelude::*;
use crate::cluster::{kind_of, Cluster, ClusterModel, EventModel, LogEvent, TableEntry};
use crate::config::EllaConfig;
use crate::error::{EngineError, Error};
use crate::ident::{Name, SchemaId, SchemaKey, SchemaRef, TableId, TableKey, TableRef};
use crate::info::{InfoModel, TableInfo, TableKind, TopicInfo, ViewInfo};
use crate::log::TransactionLog;

verus! {

/// What a table creation does, given its flags and what is registered.
#[derive(PartialEq, Eq, Structural, Clone, Copy, Debug)]
pub enum CreateOutcome {
    /// Return the registered table as it is.
    Existing,
    /// Drop the registered table and register the new one.
    Replace,
    /// Register the new table.
    Register,
    /// `if_not_exists` and `or_replace` were both given.
    ExclusiveFlags,
    /// The registered table is of the other kind.
    KindMismatch,
    /// A table is registered under the name.
    Exists,
}

/// The table-creation rules: the flags are exclusive; a registered table is
/// kept (if it has the kind asked for), replaced or refused; a free name is
/// taken.
pub open spec fn create_outcome(
    if_not_exists: bool,
    or_replace: bool,
    existing: Option<TableKind>,
    requested: TableKind,
) -> CreateOutcome {
    if if_not_exists && or_replace {
        CreateOutcome::ExclusiveFlags
    } else {
        match existing {
            None => CreateOutcome::Register,
            Some(k) => if if_not_exists {
                if k == requested {
                    CreateOutcome::Existing
                } else {
                    CreateOutcome::KindMismatch
                }
            } else if or_replace {
                CreateOutcome::Replace
            } else {
                CreateOutcome::Exists
            },
        }
    }
}

/// Decides what a table creation does.
pub fn decide_create(
    if_not_exists: bool,
    or_replace: bool,
    existing: Option<TableKind>,
    requested: TableKind,
) -> (r: CreateOutcome)
    ensures
        r == create_outcome(if_not_exists, or_replace, existing, requested),
{
    if if_not_exists && or_replace {
        CreateOutcome::ExclusiveFlags
    } else {
        match existing {
            None => CreateOutcome::Register,
            Some(k) => {
                if if_not_exists {
                    if k == requested {
                        CreateOutcome::Existing
                    } else {
                        CreateOutcome::KindMismatch
                    }
                } else if or_replace {
                    CreateOutcome::Replace
                } else {
                    CreateOutcome::Exists
                }
            },
        }
    }
}

/// Each row of the table-creation matrix holds.
pub proof fn lemma_creation_matrix(
    if_not_exists: bool,
    or_replace: bool,
    existing: Option<TableKind>,
    requested: TableKind,
)
    ensures
        ({
            let o = create_outcome(if_not_exists, or_replace, existing, requested);
            &&& (if_not_exists && !or_replace && existing == Some(requested)) ==> o == CreateOutcome::Existing
            &&& (if_not_exists && !or_replace && existing.is_some() && existing != Some(requested))
                ==> o == CreateOutcome::KindMismatch
            &&& (!if_not_exists && or_replace && existing.is_some()) ==> o == CreateOutcome::Replace
            &&& (if_not_exists && or_replace) ==> o == CreateOutcome::ExclusiveFlags
            &&& (!if_not_exists && !or_replace && existing.is_some()) ==> o == CreateOutcome::Exists
            &&& (!(if_not_exists && or_replace) && existing.is_none()) ==> o == CreateOutcome::Register
        }),
{
}

/// Replacing a registered table leaves exactly the new definition under its
/// name, whatever the kinds of the old and the new one.
pub proof fn lemma_replace_registers_new(m: ClusterModel, k: TableKey, info: InfoModel)
    requires
        m.wf(),
        m.has_table(k),
    ensures
        created(m, CreateOutcome::Replace, k, info).table(k) == Some(info),
        created(m, CreateOutcome::Replace, k, info).wf(),
{
    crate::cluster::lemma_table_in_namespace(m, k);
    let d = m.apply(EventModel::DropTable(k));
    crate::cluster::lemma_apply_wf(m, EventModel::DropTable(k));
    let x = m.table_index(k);
    assert(!d.has_table(k)) by {
        if d.has_table(k) {
            let j = choose|j: int| 0 <= j < d.tables.len() && (#[trigger] d.tables[j]).0 == k;
            if j < x {
                assert(d.tables[j] == m.tables[j]);
            } else {
                assert(d.tables[j] == m.tables[j + 1]);
            }
        }
    }
    assert(d.has_schema((k.0, k.1)));
    let c = d.apply(EventModel::CreateTable(k, info));
    crate::cluster::lemma_apply_wf(d, EventModel::CreateTable(k, info));
    let n = d.tables.len() as int;
    assert(c.tables[n] == (k, info));
    assert(c.has_table(k));
    let y = c.table_index(k);
    assert(y == n);
}

/// In a well-formed tree, the entry at `i` is what lookup by its name finds.
proof fn lemma_table_at(m: ClusterModel, i: int)
    requires
        m.wf(),
        0 <= i < m.tables.len(),
    ensures
        m.table(m.tables[i].0) == Some(m.tables[i].1),
{
    let k = m.tables[i].0;
    assert(m.has_table(k));
    let x = m.table_index(k);
    assert(m.tables[x].0 == k);
}

/// In an open session, where the catalog and schema are present, creating
/// with `or_replace` over a registered table of either kind, or creating
/// under a free name without both flags, succeeds: the new definition stands
/// under the name and every other table is as it was.
pub proof fn lemma_creation_on_open_session(
    m: ClusterModel,
    k: TableKey,
    info: InfoModel,
    if_not_exists: bool,
    or_replace: bool,
    r: Result<(TableKey, InfoModel), Error>,
    after: ClusterModel,
)
    requires
        m.wf(),
        namespace_present(m, k),
        table_creation(m, false, k, info, if_not_exists, or_replace, r, after),
        (!if_not_exists && or_replace) || (!m.has_table(k) && !(if_not_exists && or_replace)),
    ensures
        r == Ok::<(TableKey, InfoModel), Error>((k, info)),
        after.wf(),
        after.table(k) == Some(info),
        forall|k2: TableKey| k2 != k ==> #[trigger] after.table(k2) == m.table(k2),
{
    if m.has_table(k) {
        crate::cluster::lemma_table_in_namespace(m, k);
        lemma_replace_registers_new(m, k, info);
        let d = m.apply(EventModel::DropTable(k));
        crate::cluster::lemma_apply_wf(m, EventModel::DropTable(k));
        crate::cluster::lemma_apply_wf(d, EventModel::CreateTable(k, info));
        let x = m.table_index(k);
        assert(!d.has_table(k)) by {
            if d.has_table(k) {
                let j = choose|j: int| 0 <= j < d.tables.len() && (#[trigger] d.tables[j]).0 == k;
                if j < x {
                    assert(d.tables[j] == m.tables[j]);
                } else {
                    assert(d.tables[j] == m.tables[j + 1]);
                }
            }
        }
        assert forall|k2: TableKey| k2 != k implies #[trigger] after.table(k2) == m.table(k2) by {
            if m.has_table(k2) {
                let i = m.table_index(k2);
                lemma_table_at(m, i);
                assert(i != x);
                let j = if i < x { i } else { i - 1 };
                assert(d.tables[j] == m.tables[i]);
                assert(after.tables[j] == d.tables[j]);
                lemma_table_at(after, j);
            } else if after.has_table(k2) {
                let j = choose|j: int| 0 <= j < after.tables.len() && (#[trigger] after.tables[j]).0 == k2;
                assert(j < d.tables.len());
                assert(after.tables[j] == d.tables[j]);
                if j < x {
                    assert(d.tables[j] == m.tables[j]);
                } else {
                    assert(d.tables[j] == m.tables[j + 1]);
                }
            }
        }
    } else {
        crate::cluster::lemma_apply_wf(m, EventModel::CreateTable(k, info));
        let n = m.tables.len() as int;
        assert(after.tables[n] == (k, info));
        lemma_table_at(after, n);
        assert forall|k2: TableKey| k2 != k implies #[trigger] after.table(k2) == m.table(k2) by {
            if m.has_table(k2) {
                let i = m.table_index(k2);
                lemma_table_at(m, i);
                assert(after.tables[i] == m.tables[i]);
                lemma_table_at(after, i);
            } else if after.has_table(k2) {
                let j = choose|j: int| 0 <= j < after.tables.len() && (#[trigger] after.tables[j]).0 == k2;
                assert(j < n);
                assert(after.tables[j] == m.tables[j]);
            }
        }
    }
}

/// The catalog and the schema that `k` names are present.
pub open spec fn namespace_present(m: ClusterModel, k: TableKey) -> bool {
    m.has_catalog(k.0) && m.has_schema((k.0, k.1))
}

/// The tree after a table creation that succeeded with outcome `o`.
pub open spec fn created(m: ClusterModel, o: CreateOutcome, k: TableKey, info: InfoModel) -> ClusterModel {
    match o {
        CreateOutcome::Replace => m.apply(EventModel::DropTable(k)).apply(EventModel::CreateTable(k, info)),
        CreateOutcome::Register => m.apply(EventModel::CreateTable(k, info)),
        _ => m,
    }
}

/// Creating a catalog with `if_not_exists` twice leaves the tree as one creation
/// does, and it then holds exactly one catalog of that name.
pub proof fn lemma_create_catalog_idempotent(m: ClusterModel, c: Name)
    requires
        m.wf(),
    ensures
        m.apply(EventModel::CreateCatalog(c)).apply(EventModel::CreateCatalog(c)) == m.apply(EventModel::CreateCatalog(c)),
        m.apply(EventModel::CreateCatalog(c)).has_catalog(c),
        occurs_once(m.apply(EventModel::CreateCatalog(c)).catalogs, c),
{
    let m1 = m.apply(EventModel::CreateCatalog(c));
    crate::cluster::lemma_apply_wf(m, EventModel::CreateCatalog(c));
    if !m.has_catalog(c) {
        assert(m1.catalogs[m.catalogs.len() as int] == c);
    }
    assert(m1.has_catalog(c));
    let i = choose|i: int| 0 <= i < m1.catalogs.len() && m1.catalogs[i] == c;
    assert forall|j: int| 0 <= j < m1.catalogs.len() && #[trigger] m1.catalogs[j] == c implies j == i by {
        assert(m1.catalogs.no_duplicates());
    }
    assert(m1.catalogs[i] == c);
}

/// Creating the default catalog and schema where both are present changes
/// nothing: reopening a log whose tree holds its defaults, as every log that
/// [`EllaState::into_log`] hands over does, gives back exactly that tree.
pub proof fn lemma_reopen_same_tree(m: ClusterModel, catalog: Name, schema: Name)
    requires
        m.has_catalog(catalog),
        m.has_schema((catalog, schema)),
    ensures
        m.apply(EventModel::CreateCatalog(catalog)).apply(EventModel::CreateSchema((catalog, schema))) == m,
{
}

/// `x` stands exactly once in `s`.
pub open spec fn occurs_once<A>(s: Seq<A>, x: A) -> bool {
    exists|i: int|
        0 <= i < s.len() && #[trigger] s[i] == x && forall|j: int| 0 <= j < s.len() && #[trigger] s[j] == x ==> j == i
}

/// A table creation's result as names and definitions.
pub open spec fn entry_outcome(r: Result<TableEntry, Error>) -> Result<(TableKey, InfoModel), Error> {
    match r {
        Ok(e) => Ok((e.id@, e.info@)),
        Err(err) => Err(err),
    }
}

/// A schema creation's result as a name.
pub open spec fn schema_outcome(r: Result<SchemaId, Error>) -> Result<SchemaKey, Error> {
    match r {
        Ok(id) => Ok(id@),
        Err(err) => Err(err),
    }
}

/// What creating table `k` with definition `info` returns (`r`) and leaves
/// (`after`), from tree `m` in a session that is `closed` or not, by the
/// table-creation rules: the flags are checked first, then that the catalog
/// and the schema are present; a closed session registers nothing.
pub open spec fn table_creation(
    m: ClusterModel,
    closed: bool,
    k: TableKey,
    info: InfoModel,
    if_not_exists: bool,
    or_replace: bool,
    r: Result<(TableKey, InfoModel), Error>,
    after: ClusterModel,
) -> bool {
    let o = create_outcome(if_not_exists, or_replace, kind_of(m, k), info.kind());
    let mutates = o == CreateOutcome::Replace || o == CreateOutcome::Register;
    &&& match r {
        Ok(e) => e.0 == k && after == created(m, o, k, info) && e.1 == (if o == CreateOutcome::Existing {
            m.table(k).unwrap()
        } else {
            info
        }),
        Err(_) => after == m,
    }
    &&& o == CreateOutcome::ExclusiveFlags ==> r == Err::<(TableKey, InfoModel), Error>(
        Error::Engine(EngineError::ExclusiveFlags),
    )
    &&& o != CreateOutcome::ExclusiveFlags && !m.has_catalog(k.0) ==> (r matches Err(
        Error::Engine(EngineError::CatalogNotFound(n)),
    ) && n@ == k.0)
    &&& o != CreateOutcome::ExclusiveFlags && m.has_catalog(k.0) && !m.has_schema((k.0, k.1)) ==> (r matches Err(
        Error::Engine(EngineError::SchemaNotFound(n)),
    ) && n@ == k.1)
    &&& namespace_present(m, k) ==> {
        &&& o == CreateOutcome::Existing ==> r is Ok
        &&& o == CreateOutcome::KindMismatch ==> r == Err::<(TableKey, InfoModel), Error>(
            Error::Engine(EngineError::TableKind { expected: info.kind(), actual: kind_of(m, k).unwrap() }),
        )
        &&& o == CreateOutcome::Exists ==> (r matches Err(Error::Engine(EngineError::TableExists(t))) && t@ == k)
        &&& mutates && closed ==> r == Err::<(TableKey, InfoModel), Error>(Error::Engine(EngineError::Closed))
        &&& mutates && !closed ==> r is Ok
    }
}

/// What creating catalog `c` returns and leaves: a present catalog is kept if
/// `if_not_exists`, else refused; a closed session takes no new catalog.
pub open spec fn catalog_creation(
    m: ClusterModel,
    closed: bool,
    c: Name,
    if_not_exists: bool,
    r: Result<(), Error>,
    after: ClusterModel,
) -> bool {
    &&& r is Ok ==> after == m.apply(EventModel::CreateCatalog(c))
    &&& r is Err ==> after == m
    &&& m.has_catalog(c) && if_not_exists ==> r is Ok
    &&& m.has_catalog(c) && !if_not_exists ==> (r matches Err(Error::Engine(EngineError::CatalogExists(n))) && n@ == c)
    &&& !m.has_catalog(c) && closed ==> r == Err::<(), Error>(Error::Engine(EngineError::Closed))
    &&& !m.has_catalog(c) && !closed ==> r is Ok
}

/// What creating schema `k` returns and leaves: its catalog must be present; a
/// present schema is kept if `if_not_exists`, else refused; a closed session
/// takes no new schema.
pub open spec fn schema_creation(
    m: ClusterModel,
    closed: bool,
    k: SchemaKey,
    if_not_exists: bool,
    r: Result<SchemaKey, Error>,
    after: ClusterModel,
) -> bool {
    &&& match r {
        Ok(id) => id == k && after == m.apply(EventModel::CreateSchema(k)),
        Err(_) => after == m,
    }
    &&& !m.has_catalog(k.0) ==> (r matches Err(Error::Engine(EngineError::CatalogNotFound(n))) && n@ == k.0)
    &&& m.has_catalog(k.0) && m.has_schema(k) && if_not_exists ==> r is Ok
    &&& m.has_catalog(k.0) && m.has_schema(k) && !if_not_exists ==> (r matches Err(
        Error::Engine(EngineError::SchemaExists(n)),
    ) && n@ == k.1)
    &&& m.has_catalog(k.0) && !m.has_schema(k) && closed ==> r == Err::<SchemaKey, Error>(
        Error::Engine(EngineError::Closed),
    )
    &&& m.has_catalog(k.0) && !m.has_schema(k) && !closed ==> r is Ok
}

/// A session: the log, the tree it records, and the active configuration.
pub struct EllaState {
    root: String,
    log: TransactionLog,
    cluster: Cluster,
    config: EllaConfig,
}

impl EllaState {
    /// The catalog tree of the session.
    pub closed spec fn model(&self) -> ClusterModel {
        self.cluster.model()
    }

    pub closed spec fn is_closed(&self) -> bool {
        self.cluster.is_closed_spec()
    }

    pub closed spec fn config_spec(&self) -> EllaConfig {
        self.config
    }

    pub closed spec fn root_spec(&self) -> Seq<char> {
        self.root@
    }

    /// The tree the log records, snapshot and tail together.
    pub closed spec fn logged(&self) -> ClusterModel {
        self.log.state()
    }

    /// The configuration the log keeps: the one the datastore was created with.
    pub closed spec fn log_config_spec(&self) -> EllaConfig {
        self.log.config_spec()
    }

    /// The tree is the one the log records.
    closed spec fn consistent(&self) -> bool {
        &&& self.log.wf()
        &&& self.cluster.wf()
        &&& self.cluster.model() == self.log.state()
    }

    /// The tree is the one the log records, and it holds the default catalog
    /// and schema of the log's configuration.
    pub closed spec fn inv(&self) -> bool {
        &&& self.consistent()
        &&& self.model().has_catalog(self.log_config_spec()@.default_catalog)
        &&& self.model().has_schema(
            (self.log_config_spec()@.default_catalog, self.log_config_spec()@.default_schema),
        )
    }

    pub proof fn lemma_inv(&self)
        requires
            self.inv(),
        ensures
            self.model().wf(),
            self.logged() == self.model(),
            self.model().has_catalog(self.log_config_spec()@.default_catalog),
            self.model().has_schema((self.log_config_spec()@.default_catalog, self.log_config_spec()@.default_schema)),
    {
    }

    fn commit(&mut self, e: LogEvent)
        requires
            old(self).consistent(),
        ensures
            final(self).consistent(),
            old(self).inv() ==> final(self).inv(),
            final(self).log_config_spec() == old(self).log_config_spec(),
            final(self).model() == old(self).model().apply(e@),
            final(self).is_closed() == old(self).is_closed(),
            final(self).config_spec() == old(self).config_spec(),
            final(self).root_spec() == old(self).root_spec(),
    {
        proof {
            if self.inv() {
                crate::cluster::lemma_apply_keeps_namespace(
                    self.model(),
                    e@,
                    self.log_config_spec()@.default_catalog,
                    self.log_config_spec()@.default_schema,
                );
            }
        }
        self.cluster.apply(&e);
        self.log.append(e);
    }

    /// Ensures that the default catalog and schema of the configuration exist.
    fn restore_defaults(&mut self)
        requires
            old(self).consistent(),
            !old(self).is_closed(),
            old(self).config_spec()@ == old(self).log_config_spec()@,
        ensures
            final(self).log_config_spec() == old(self).log_config_spec(),
            final(self).inv(),
            !final(self).is_closed(),
            final(self).model() == old(self).model().apply(
                EventModel::CreateCatalog(old(self).config_spec()@.default_catalog),
            ).apply(
                EventModel::CreateSchema(
                    (old(self).config_spec()@.default_catalog, old(self).config_spec()@.default_schema),
                ),
            ),
            final(self).model().has_catalog(final(self).config_spec()@.default_catalog),
            final(self).model().has_schema(
                (final(self).config_spec()@.default_catalog, final(self).config_spec()@.default_schema),
            ),
            final(self).config_spec() == old(self).config_spec(),
            final(self).root_spec() == old(self).root_spec(),
    {
        let catalog = self.config.default_catalog().clone();
        let schema = SchemaId::new(self.config.default_catalog(), self.config.default_schema());
        let ghost m0 = self.model();
        if !self.cluster.catalog(&catalog) {
            self.commit(LogEvent::CreateCatalog(catalog));
            assert(self.model().catalogs[m0.catalogs.len() as int] == self.config@.default_catalog);
        }
        assert(self.model().has_catalog(self.config@.default_catalog));
        let ghost m1 = self.model();
        if !self.cluster.schema(&schema) {
            self.commit(LogEvent::CreateSchema(schema));
            assert(self.model().schemas[m1.schemas.len() as int] == (
                self.config@.default_catalog,
                self.config@.default_schema,
            ));
        }
        proof {
            self.lemma_inv();
        }
    }

    fn from_log(root: &str, log: TransactionLog) -> (r: EllaState)
        ensures
            r.inv(),
            !r.is_closed(),
            r.root_spec() == root@,
            r.config_spec()@ == log.config_spec()@,
            r.model() == log.state().apply(
                EventModel::CreateCatalog(log.config_spec()@.default_catalog),
            ).apply(
                EventModel::CreateSchema((log.config_spec()@.default_catalog, log.config_spec()@.default_schema)),
            ),
            r.model().has_catalog(r.config_spec()@.default_catalog),
            r.model().has_schema((r.config_spec()@.default_catalog, r.config_spec()@.default_schema)),
            r.log_config_spec() == log.config_spec(),
    {
        let cluster = log.restore();
        let config = log.config().duplicate();
        let mut state = EllaState { root: root.to_owned(), log, cluster, config };
        state.restore_defaults();
        state
    }

    /// Opens the datastore at `root`, whose log the caller has read (`None`
    /// where no valid log was found). The tree is restored from the log, and
    /// the configured default catalog and schema are created if absent.
    pub fn open(root: &str, stored: Option<TransactionLog>) -> (r: Result<EllaState, Error>)
        ensures
            match stored {
                None => r matches Err(Error::Engine(EngineError::InvalidDatastore(p))) && p@ == root@,
                Some(log) => r matches Ok(s) && {
                    &&& s.inv()
                    &&& !s.is_closed()
                    &&& s.root_spec() == root@
                    &&& s.config_spec()@ == log.config_spec()@
                    &&& s.log_config_spec() == log.config_spec()
                    &&& log.state().has_catalog(log.config_spec()@.default_catalog) && log.state().has_schema(
                        (log.config_spec()@.default_catalog, log.config_spec()@.default_schema),
                    ) ==> s.model() == log.state()
                    &&& s.model() == log.state().apply(
                        EventModel::CreateCatalog(log.config_spec()@.default_catalog),
                    ).apply(
                        EventModel::CreateSchema(
                            (log.config_spec()@.default_catalog, log.config_spec()@.default_schema),
                        ),
                    )
                },
            },
    {
        match stored {
            None => Err(Error::Engine(EngineError::InvalidDatastore(root.to_owned()))),
            Some(log) => {
                proof {
                    let c = log.config_spec()@;
                    if log.state().has_catalog(c.default_catalog) && log.state().has_schema(
                        (c.default_catalog, c.default_schema),
                    ) {
                        lemma_reopen_same_tree(log.state(), c.default_catalog, c.default_schema);
                    }
                }
                Ok(EllaState::from_log(root, log))
            },
        }
    }

    /// Creates a datastore at `root` with `config`. Where one exists already
    /// (`stored` holds its log), it is opened if `if_not_exists` and refused
    /// otherwise.
    pub fn create(root: &str, config: EllaConfig, if_not_exists: bool, stored: Option<TransactionLog>) -> (r: Result<
        EllaState,
        Error,
    >)
        ensures
            match stored {
                Some(log) => if if_not_exists {
                    r matches Ok(s) && s.inv() && !s.is_closed() && s.root_spec() == root@
                        && s.config_spec()@ == log.config_spec()@
                        && s.model() == log.state().apply(
                        EventModel::CreateCatalog(log.config_spec()@.default_catalog),
                    ).apply(
                        EventModel::CreateSchema(
                            (log.config_spec()@.default_catalog, log.config_spec()@.default_schema),
                        ),
                    )
                } else {
                    r matches Err(Error::Engine(EngineError::DatastoreExists(p))) && p@ == root@
                },
                None => r matches Ok(s) && s.inv() && !s.is_closed() && s.root_spec() == root@
                    && s.config_spec()@ == config@
                    && s.model() == ClusterModel::empty().apply(
                    EventModel::CreateCatalog(config@.default_catalog),
                ).apply(EventModel::CreateSchema((config@.default_catalog, config@.default_schema))),
            },
    {
        match stored {
            Some(log) => {
                if if_not_exists {
                    Ok(EllaState::from_log(root, log))
                } else {
                    Err(Error::Engine(EngineError::DatastoreExists(root.to_owned())))
                }
            },
            None => {
                let log = TransactionLog::new(config);
                proof {
                    assert(log.state() == ClusterModel::empty());
                }
                Ok(EllaState::from_log(root, log))
            },
        }
    }

    /// Replaces the configuration as a whole.
    pub fn with_config(&mut self, config: EllaConfig)
        ensures
            final(self).config_spec() == config,
            final(self).model() == old(self).model(),
            final(self).logged() == old(self).logged(),
            final(self).inv() == old(self).inv(),
            final(self).is_closed() == old(self).is_closed(),
            final(self).root_spec() == old(self).root_spec(),
    {
        self.config = config;
    }

    pub fn config(&self) -> (r: &EllaConfig)
        ensures
            *r == self.config_spec(),
    {
        &self.config
    }

    pub fn root(&self) -> (r: &String)
        ensures
            r@ == self.root_spec(),
    {
        &self.root
    }

    pub fn log(&self) -> (r: &TransactionLog)
        ensures
            r.state() == self.logged(),
    {
        &self.log
    }

    pub fn cluster(&self) -> (r: &Cluster)
        ensures
            r.model() == self.model(),
            r.is_closed_spec() == self.is_closed(),
    {
        &self.cluster
    }

    pub fn default_catalog(&self) -> (r: &String)
        ensures
            r@ == self.config_spec()@.default_catalog,
    {
        self.config.default_catalog()
    }

    pub fn default_schema(&self) -> (r: &String)
        ensures
            r@ == self.config_spec()@.default_schema,
    {
        self.config.default_schema()
    }

    /// Fills in the catalog and schema of `table` from the defaults.
    pub fn resolve(&self, table: &TableRef) -> (r: TableId)
        ensures
            r@ == table.spec_resolve(self.config_spec()@.default_catalog, self.config_spec()@.default_schema),
    {
        table.resolve(self.config.default_catalog(), self.config.default_schema())
    }

    /// The definition of table `id`, if it is registered.
    pub fn table(&self, id: &TableId) -> (r: Option<&TableInfo>)
        requires
            self.inv(),
        ensures
            match r {
                Some(info) => self.model().table(id@) == Some(info@),
                None => self.model().table(id@).is_none(),
            },
    {
        self.cluster.table(id)
    }

    /// Creates catalog `name`. A present catalog is kept if `if_not_exists`,
    /// else refused; a closed session takes no new catalog.
    pub fn create_catalog(&mut self, name: &String, if_not_exists: bool) -> (r: Result<(), Error>)
        requires
            old(self).inv(),
        ensures
            final(self).inv(),
            final(self).is_closed() == old(self).is_closed(),
            final(self).config_spec() == old(self).config_spec(),
            final(self).root_spec() == old(self).root_spec(),
            r is Err ==> *final(self) == *old(self),
            catalog_creation(old(self).model(), old(self).is_closed(), name@, if_not_exists, r, final(self).model()),
    {
        if self.cluster.catalog(name) {
            if if_not_exists {
                Ok(())
            } else {
                Err(Error::Engine(EngineError::CatalogExists(name.clone())))
            }
        } else if self.cluster.is_closed() {
            Err(Error::Engine(EngineError::Closed))
        } else {
            self.commit(LogEvent::CreateCatalog(name.clone()));
            Ok(())
        }
    }

    /// Creates a schema; its catalog defaults to the session's. The catalog
    /// must be present; a present schema is kept if `if_not_exists`, else
    /// refused; a closed session takes no new schema.
    pub fn create_schema(&mut self, schema: &SchemaRef, if_not_exists: bool) -> (r: Result<SchemaId, Error>)
        requires
            old(self).inv(),
        ensures
            final(self).inv(),
            final(self).is_closed() == old(self).is_closed(),
            final(self).config_spec() == old(self).config_spec(),
            final(self).root_spec() == old(self).root_spec(),
            r is Err ==> *final(self) == *old(self),
            schema_creation(
                old(self).model(),
                old(self).is_closed(),
                schema.spec_resolve(old(self).config_spec()@.default_catalog),
                if_not_exists,
                schema_outcome(r),
                final(self).model(),
            ),
    {
        let id = schema.resolve(self.config.default_catalog());
        if !self.cluster.catalog(&id.catalog) {
            return Err(Error::Engine(EngineError::CatalogNotFound(id.catalog)));
        }
        if self.cluster.schema(&id) {
            if if_not_exists {
                Ok(id)
            } else {
                Err(Error::Engine(EngineError::SchemaExists(id.schema)))
            }
        } else if self.cluster.is_closed() {
            Err(Error::Engine(EngineError::Closed))
        } else {
            self.commit(LogEvent::CreateSchema(id.duplicate()));
            Ok(id)
        }
    }

    /// Creates table `id` by the table-creation rules (see [`create_outcome`]).
    /// The flags are checked first, then that the catalog and schema are
    /// present; a closed session registers nothing.
    pub fn create_table(&mut self, id: TableId, info: TableInfo, if_not_exists: bool, or_replace: bool) -> (r: Result<
        TableEntry,
        Error,
    >)
        requires
            old(self).inv(),
        ensures
            final(self).inv(),
            final(self).is_closed() == old(self).is_closed(),
            final(self).config_spec() == old(self).config_spec(),
            final(self).root_spec() == old(self).root_spec(),
            r is Err ==> *final(self) == *old(self),
            table_creation(
                old(self).model(),
                old(self).is_closed(),
                id@,
                info@,
                if_not_exists,
                or_replace,
                entry_outcome(r),
                final(self).model(),
            ),
    {
        let ghost m = self.model();
        if if_not_exists && or_replace {
            return Err(Error::Engine(EngineError::ExclusiveFlags));
        }
        if !self.cluster.catalog(&id.catalog) {
            return Err(Error::Engine(EngineError::CatalogNotFound(id.catalog)));
        }
        if !self.cluster.schema(&id.schema_id()) {
            return Err(Error::Engine(EngineError::SchemaNotFound(id.schema)));
        }
        let existing: Option<TableKind> = match self.cluster.table(&id) {
            Some(t) => Some(t.kind()),
            None => None,
        };
        let requested = info.kind();
        match decide_create(if_not_exists, or_replace, existing, requested) {
            CreateOutcome::Existing => {
                let found = self.cluster.table(&id).unwrap().duplicate();
                Ok(TableEntry { id, info: found })
            },
            CreateOutcome::KindMismatch => {
                Err(Error::Engine(EngineError::TableKind { expected: requested, actual: existing.unwrap() }))
            },
            CreateOutcome::Exists => Err(Error::Engine(EngineError::TableExists(id))),
            CreateOutcome::ExclusiveFlags => Err(Error::Engine(EngineError::ExclusiveFlags)),
            CreateOutcome::Replace => {
                if self.cluster.is_closed() {
                    return Err(Error::Engine(EngineError::Closed));
                }
                self.commit(LogEvent::DropTable(id.duplicate()));
                self.commit(LogEvent::CreateTable(id.duplicate(), info.duplicate()));
                Ok(TableEntry { id, info })
            },
            CreateOutcome::Register => {
                if self.cluster.is_closed() {
                    return Err(Error::Engine(EngineError::Closed));
                }
                self.commit(LogEvent::CreateTable(id.duplicate(), info.duplicate()));
                Ok(TableEntry { id, info })
            },
        }
    }

    /// Creates a topic by the table-creation rules.
    pub fn create_topic(&mut self, id: TableId, info: TopicInfo, if_not_exists: bool, or_replace: bool) -> (r: Result<
        TableEntry,
        Error,
    >)
        requires
            old(self).inv(),
        ensures
            final(self).inv(),
            final(self).is_closed() == old(self).is_closed(),
            final(self).config_spec() == old(self).config_spec(),
            final(self).root_spec() == old(self).root_spec(),
            r is Err ==> *final(self) == *old(self),
            r matches Ok(e) ==> e.info@.kind() == TableKind::Topic,
            table_creation(
                old(self).model(),
                old(self).is_closed(),
                id@,
                InfoModel::Topic(info@),
                if_not_exists,
                or_replace,
                entry_outcome(r),
                final(self).model(),
            ),
    {
        self.create_table(id, TableInfo::Topic(info), if_not_exists, or_replace)
    }

    /// Creates a view by the table-creation rules.
    pub fn create_view(&mut self, id: TableId, info: ViewInfo, if_not_exists: bool, or_replace: bool) -> (r: Result<
        TableEntry,
        Error,
    >)
        requires
            old(self).inv(),
        ensures
            final(self).inv(),
            final(self).is_closed() == old(self).is_closed(),
            final(self).config_spec() == old(self).config_spec(),
            final(self).root_spec() == old(self).root_spec(),
            r is Err ==> *final(self) == *old(self),
            r matches Ok(e) ==> e.info@.kind() == TableKind::View,
            table_creation(
                old(self).model(),
                old(self).is_closed(),
                id@,
                InfoModel::View(info@.0, info@.1),
                if_not_exists,
                or_replace,
                entry_outcome(r),
                final(self).model(),
            ),
    {
        self.create_table(id, TableInfo::View(info), if_not_exists, or_replace)
    }

    /// Drops table `id`. A missing table is an error unless `if_exists`; a
    /// closed session drops nothing.
    pub fn drop_table(&mut self, id: &TableId, if_exists: bool) -> (r: Result<(), Error>)
        requires
            old(self).inv(),
        ensures
            final(self).inv(),
            final(self).is_closed() == old(self).is_closed(),
            final(self).config_spec() == old(self).config_spec(),
            final(self).root_spec() == old(self).root_spec(),
            r is Ok ==> final(self).model() == old(self).model().apply(EventModel::DropTable(id@)),
            r is Err ==> final(self).model() == old(self).model(),
            !old(self).model().has_table(id@) && if_exists ==> r is Ok,
            !old(self).model().has_table(id@) && !if_exists ==> (r matches Err(
                Error::Engine(EngineError::TableNotFound(t)),
            ) && t@ == id@),
            old(self).model().has_table(id@) && old(self).is_closed() ==> r matches Err(
                Error::Engine(EngineError::Closed),
            ),
            old(self).model().has_table(id@) && !old(self).is_closed() ==> r is Ok,
    {
        if self.cluster.table(id).is_none() {
            if if_exists {
                Ok(())
            } else {
                Err(Error::Engine(EngineError::TableNotFound(id.duplicate())))
            }
        } else if self.cluster.is_closed() {
            Err(Error::Engine(EngineError::Closed))
        } else {
            self.commit(LogEvent::DropTable(id.duplicate()));
            Ok(())
        }
    }

    /// Refuses further changes to the catalog.
    pub fn close(&mut self)
        requires
            old(self).inv(),
        ensures
            final(self).inv(),
            final(self).is_closed(),
            final(self).model() == old(self).model(),
            final(self).logged() == old(self).logged(),
            final(self).config_spec() == old(self).config_spec(),
    {
        self.cluster.close();
    }

    /// Folds the log's tail into a new snapshot; the recorded tree is unchanged.
    pub fn snapshot(&mut self)
        requires
            old(self).inv(),
        ensures
            final(self).inv(),
            final(self).is_closed() == old(self).is_closed(),
            final(self).model() == old(self).model(),
            final(self).config_spec() == old(self).config_spec(),
            final(self).log_tail_empty(),
    {
        self.log.create_snapshot();
    }

    pub closed spec fn log_tail_empty(&self) -> bool {
        self.log.tail_model().len() == 0
    }

    /// Hands the log over, as it is to be stored.
    pub fn into_log(self) -> (r: TransactionLog)
        requires
            self.inv(),
        ensures
            r.wf(),
            r.state() == self.model(),
            r.config_spec() == self.log_config_spec(),
            r.state().has_catalog(r.config_spec()@.default_catalog),
            r.state().has_schema((r.config_spec()@.default_catalog, r.config_spec()@.default_schema)),
    {
        self.log
    }
}

} // verus!
