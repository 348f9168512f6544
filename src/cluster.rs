//! The registry of catalogs, schemas and tables, and the events that change it.
use vstd::prelude::*;
use crate::ident::{Name, SchemaId, SchemaKey, TableId, TableKey};
use crate::info::{InfoModel, TableInfo, TableKind};

verus! {

/// A table registered in a schema.
pub struct TableEntry {
    pub id: TableId,
    pub info: TableInfo,
}

/// The catalog tree. Each schema belongs to a catalog that is present and each
/// table to a schema that is present; names are unique at each level.
pub struct Cluster {
    catalogs: Vec<String>,
    schemas: Vec<SchemaId>,
    tables: Vec<TableEntry>,
    closed: bool,
}

/// The mathematical value of the catalog tree, in order of creation.
pub struct ClusterModel {
    pub catalogs: Seq<Name>,
    pub schemas: Seq<SchemaKey>,
    pub tables: Seq<(TableKey, InfoModel)>,
}

/// A change of the catalog tree, as the transaction log records it.
pub enum LogEvent {
    CreateCatalog(String),
    CreateSchema(SchemaId),
    CreateTable(TableId, TableInfo),
    DropTable(TableId),
}

/// The mathematical value of a log event.
pub enum EventModel {
    CreateCatalog(Name),
    CreateSchema(SchemaKey),
    CreateTable(TableKey, InfoModel),
    DropTable(TableKey),
}

impl View for LogEvent {
    type V = EventModel;

    open spec fn view(&self) -> EventModel {
        match self {
            LogEvent::CreateCatalog(c) => EventModel::CreateCatalog(c@),
            LogEvent::CreateSchema(s) => EventModel::CreateSchema(s@),
            LogEvent::CreateTable(t, i) => EventModel::CreateTable(t@, i@),
            LogEvent::DropTable(t) => EventModel::DropTable(t@),
        }
    }
}

impl LogEvent {
    pub fn duplicate(&self) -> (r: LogEvent)
        ensures
            r@ == self@,
    {
        match self {
            LogEvent::CreateCatalog(c) => LogEvent::CreateCatalog(c.clone()),
            LogEvent::CreateSchema(s) => LogEvent::CreateSchema(s.duplicate()),
            LogEvent::CreateTable(t, i) => LogEvent::CreateTable(t.duplicate(), i.duplicate()),
            LogEvent::DropTable(t) => LogEvent::DropTable(t.duplicate()),
        }
    }
}

impl ClusterModel {
    pub open spec fn empty() -> ClusterModel {
        ClusterModel { catalogs: Seq::empty(), schemas: Seq::empty(), tables: Seq::empty() }
    }

    pub open spec fn has_catalog(self, c: Name) -> bool {
        self.catalogs.contains(c)
    }

    pub open spec fn has_schema(self, s: SchemaKey) -> bool {
        self.schemas.contains(s)
    }

    pub open spec fn has_table(self, k: TableKey) -> bool {
        exists|i: int| 0 <= i < self.tables.len() && (#[trigger] self.tables[i]).0 == k
    }

    pub open spec fn table_index(self, k: TableKey) -> int {
        choose|i: int| 0 <= i < self.tables.len() && (#[trigger] self.tables[i]).0 == k
    }

    /// The definition registered under `k`, if any.
    pub open spec fn table(self, k: TableKey) -> Option<InfoModel> {
        if self.has_table(k) {
            Some(self.tables[self.table_index(k)].1)
        } else {
            None
        }
    }

    /// Names are unique at each level and every node's parent is present.
    pub open spec fn wf(self) -> bool {
        &&& self.catalogs.no_duplicates()
        &&& self.schemas.no_duplicates()
        &&& forall|i: int, j: int|
            0 <= i < self.tables.len() && 0 <= j < self.tables.len() && i != j
                ==> (#[trigger] self.tables[i]).0 != (#[trigger] self.tables[j]).0
        &&& forall|i: int|
            0 <= i < self.schemas.len() ==> self.catalogs.contains((#[trigger] self.schemas[i]).0)
        &&& forall|i: int|
            0 <= i < self.tables.len() ==> self.schemas.contains(
                ((#[trigger] self.tables[i]).0.0, self.tables[i].0.1),
            )
    }

    /// The tree after one event. A creation whose parent is missing or whose
    /// name is taken, and a drop of a missing table, change nothing.
    pub open spec fn apply(self, e: EventModel) -> ClusterModel {
        match e {
            EventModel::CreateCatalog(c) => if self.has_catalog(c) {
                self
            } else {
                ClusterModel { catalogs: self.catalogs.push(c), ..self }
            },
            EventModel::CreateSchema(s) => if !self.has_catalog(s.0) || self.has_schema(s) {
                self
            } else {
                ClusterModel { schemas: self.schemas.push(s), ..self }
            },
            EventModel::CreateTable(k, info) => if !self.has_schema((k.0, k.1)) || self.has_table(k) {
                self
            } else {
                ClusterModel { tables: self.tables.push((k, info)), ..self }
            },
            EventModel::DropTable(k) => if self.has_table(k) {
                ClusterModel { tables: self.tables.remove(self.table_index(k)), ..self }
            } else {
                self
            },
        }
    }
}

/// One event keeps the tree well formed.
pub proof fn lemma_apply_wf(m: ClusterModel, e: EventModel)
    requires
        m.wf(),
    ensures
        m.apply(e).wf(),
{
    let r = m.apply(e);
    match e {
        EventModel::CreateCatalog(c) => {
            if !m.has_catalog(c) {
                assert forall|i: int| 0 <= i < r.schemas.len() implies r.catalogs.contains(
                    (#[trigger] r.schemas[i]).0,
                ) by {
                    let j = choose|j: int| 0 <= j < m.catalogs.len() && m.catalogs[j] == m.schemas[i].0;
                    assert(r.catalogs[j] == m.catalogs[j]);
                }
            }
        },
        EventModel::CreateSchema(s) => {
            if m.has_catalog(s.0) && !m.has_schema(s) {
                assert forall|i: int| 0 <= i < r.tables.len() implies r.schemas.contains(
                    ((#[trigger] r.tables[i]).0.0, r.tables[i].0.1),
                ) by {
                    let k = (m.tables[i].0.0, m.tables[i].0.1);
                    let j = choose|j: int| 0 <= j < m.schemas.len() && m.schemas[j] == k;
                    assert(r.schemas[j] == m.schemas[j]);
                }
            }
        },
        EventModel::CreateTable(k, info) => {
            if m.has_schema((k.0, k.1)) && !m.has_table(k) {
                assert forall|i: int, j: int|
                    0 <= i < r.tables.len() && 0 <= j < r.tables.len() && i != j
                        implies (#[trigger] r.tables[i]).0 != (#[trigger] r.tables[j]).0 by {
                    if i == m.tables.len() as int {
                        assert(m.tables[j] == r.tables[j]);
                    } else if j == m.tables.len() as int {
                        assert(m.tables[i] == r.tables[i]);
                    }
                }
            }
        },
        EventModel::DropTable(k) => {
            if m.has_table(k) {
                let x = m.table_index(k);
                assert forall|i: int| 0 <= i < r.tables.len() implies #[trigger] r.tables[i] == m.tables[
                    if i < x { i } else { i + 1 }
                ] by {}
            }
        },
    }
}

impl Cluster {
    pub closed spec fn model(&self) -> ClusterModel {
        ClusterModel {
            catalogs: self.catalogs@.map_values(|c: String| c@),
            schemas: self.schemas@.map_values(|s: SchemaId| s@),
            tables: self.tables@.map_values(|t: TableEntry| (t.id@, t.info@)),
        }
    }

    pub closed spec fn is_closed_spec(&self) -> bool {
        self.closed
    }

    pub open spec fn wf(&self) -> bool {
        self.model().wf()
    }

    /// An empty, open tree.
    pub fn new() -> (r: Cluster)
        ensures
            r.model() == ClusterModel::empty(),
            r.wf(),
            !r.is_closed_spec(),
    {
        let r = Cluster { catalogs: Vec::new(), schemas: Vec::new(), tables: Vec::new(), closed: false };
        assert(r.model().catalogs =~= Seq::empty());
        assert(r.model().schemas =~= Seq::empty());
        assert(r.model().tables =~= Seq::empty());
        r
    }

    /// Whether a catalog of that name is present.
    pub fn catalog(&self, name: &String) -> (r: bool)
        ensures
            r == self.model().has_catalog(name@),
    {
        let mut i: usize = 0;
        while i < self.catalogs.len()
            invariant
                i <= self.catalogs.len(),
                forall|j: int| 0 <= j < i ==> self.model().catalogs[j] != name@,
            decreases self.catalogs.len() - i,
        {
            if self.catalogs[i] == *name {
                assert(self.model().catalogs[i as int] == name@);
                return true;
            }
            i += 1;
        }
        false
    }

    /// Whether a schema of that name is present.
    pub fn schema(&self, id: &SchemaId) -> (r: bool)
        ensures
            r == self.model().has_schema(id@),
    {
        let mut i: usize = 0;
        while i < self.schemas.len()
            invariant
                i <= self.schemas.len(),
                forall|j: int| 0 <= j < i ==> self.model().schemas[j] != id@,
            decreases self.schemas.len() - i,
        {
            if self.schemas[i].same(id) {
                assert(self.model().schemas[i as int] == id@);
                return true;
            }
            i += 1;
        }
        false
    }

    fn find_table(&self, id: &TableId) -> (r: Option<usize>)
        requires
            self.wf(),
        ensures
            r.is_some() == self.model().has_table(id@),
            r.is_some() ==> r.unwrap() == self.model().table_index(id@),
            r.is_some() ==> r.unwrap() < self.tables.len(),
    {
        let mut i: usize = 0;
        while i < self.tables.len()
            invariant
                i <= self.tables.len(),
                self.wf(),
                forall|j: int| 0 <= j < i ==> (#[trigger] self.model().tables[j]).0 != id@,
            decreases self.tables.len() - i,
        {
            if self.tables[i].id.same(id) {
                proof {
                    let m = self.model();
                    assert(m.tables[i as int].0 == id@);
                    assert(m.has_table(id@));
                    let x = m.table_index(id@);
                    assert(m.tables[x].0 == id@);
                    assert(x == i);
                }
                return Some(i);
            }
            i += 1;
        }
        None
    }

    /// The definition of the table `id`, if it is registered.
    pub fn table(&self, id: &TableId) -> (r: Option<&TableInfo>)
        requires
            self.wf(),
        ensures
            match r {
                Some(info) => self.model().table(id@) == Some(info@),
                None => self.model().table(id@).is_none(),
            },
    {
        match self.find_table(id) {
            Some(i) => Some(&self.tables[i].info),
            None => None,
        }
    }

    pub fn is_closed(&self) -> (r: bool)
        ensures
            r == self.is_closed_spec(),
    {
        self.closed
    }

    /// Refuses further changes through the session from now on.
    pub fn close(&mut self)
        ensures
            final(self).model() == old(self).model(),
            final(self).is_closed_spec(),
    {
        self.closed = true;
    }

    pub fn num_catalogs(&self) -> (r: usize)
        ensures
            r == self.model().catalogs.len(),
    {
        self.catalogs.len()
    }

    pub fn num_schemas(&self) -> (r: usize)
        ensures
            r == self.model().schemas.len(),
    {
        self.schemas.len()
    }

    pub fn num_tables(&self) -> (r: usize)
        ensures
            r == self.model().tables.len(),
    {
        self.tables.len()
    }

    /// Applies one event to the tree.
    pub fn apply(&mut self, e: &LogEvent)
        requires
            old(self).wf(),
        ensures
            final(self).model() == old(self).model().apply(e@),
            final(self).wf(),
            final(self).is_closed_spec() == old(self).is_closed_spec(),
    {
        proof {
            lemma_apply_wf(self.model(), e@);
        }
        let ghost m = self.model();
        match e {
            LogEvent::CreateCatalog(c) => {
                if !self.catalog(c) {
                    self.catalogs.push(c.clone());
                    assert(self.model().catalogs =~= m.catalogs.push(c@));
                }
            },
            LogEvent::CreateSchema(s) => {
                if self.catalog(&s.catalog) && !self.schema(s) {
                    self.schemas.push(s.duplicate());
                    assert(self.model().schemas =~= m.schemas.push(s@));
                }
            },
            LogEvent::CreateTable(t, info) => {
                if self.schema(&t.schema_id()) && self.find_table(t).is_none() {
                    self.tables.push(TableEntry { id: t.duplicate(), info: info.duplicate() });
                    assert(self.model().tables =~= m.tables.push((t@, info@)));
                }
            },
            LogEvent::DropTable(t) => {
                match self.find_table(t) {
                    Some(i) => {
                        self.tables.remove(i);
                        assert(self.model().tables =~= m.tables.remove(i as int));
                    },
                    None => {},
                }
            },
        }
        assert(self.model() == m.apply(e@));
    }

    /// A copy of the tree, open for changes.
    pub fn duplicate(&self) -> (r: Cluster)
        ensures
            r.model() == self.model(),
            !r.is_closed_spec(),
    {
        let mut catalogs: Vec<String> = Vec::new();
        let mut i: usize = 0;
        while i < self.catalogs.len()
            invariant
                i <= self.catalogs.len(),
                catalogs@.len() == i,
                forall|j: int| 0 <= j < i ==> (#[trigger] catalogs@[j])@ == self.catalogs@[j]@,
            decreases self.catalogs.len() - i,
        {
            catalogs.push(self.catalogs[i].clone());
            i += 1;
        }
        let mut schemas: Vec<SchemaId> = Vec::new();
        let mut i: usize = 0;
        while i < self.schemas.len()
            invariant
                i <= self.schemas.len(),
                schemas@.len() == i,
                forall|j: int| 0 <= j < i ==> (#[trigger] schemas@[j])@ == self.schemas@[j]@,
            decreases self.schemas.len() - i,
        {
            schemas.push(self.schemas[i].duplicate());
            i += 1;
        }
        let mut tables: Vec<TableEntry> = Vec::new();
        let mut i: usize = 0;
        while i < self.tables.len()
            invariant
                i <= self.tables.len(),
                tables@.len() == i,
                forall|j: int|
                    0 <= j < i ==> (#[trigger] tables@[j]).id@ == self.tables@[j].id@
                        && tables@[j].info@ == self.tables@[j].info@,
            decreases self.tables.len() - i,
        {
            tables.push(TableEntry { id: self.tables[i].id.duplicate(), info: self.tables[i].info.duplicate() });
            i += 1;
        }
        let r = Cluster { catalogs, schemas, tables, closed: false };
        assert(r.model().catalogs =~= self.model().catalogs);
        assert(r.model().schemas =~= self.model().schemas);
        assert(r.model().tables =~= self.model().tables);
        r
    }
}

/// No event removes a catalog or a schema.
pub proof fn lemma_apply_keeps_namespace(m: ClusterModel, e: EventModel, c: Name, s: Name)
    requires
        m.has_catalog(c),
        m.has_schema((c, s)),
    ensures
        m.apply(e).has_catalog(c),
        m.apply(e).has_schema((c, s)),
{
    let i = choose|i: int| 0 <= i < m.catalogs.len() && m.catalogs[i] == c;
    let j = choose|j: int| 0 <= j < m.schemas.len() && m.schemas[j] == (c, s);
    assert(m.apply(e).catalogs[i] == c);
    assert(m.apply(e).schemas[j] == (c, s));
}

/// A registered table lies in a present schema of a present catalog.
pub proof fn lemma_table_in_namespace(m: ClusterModel, k: TableKey)
    requires
        m.wf(),
        m.has_table(k),
    ensures
        m.has_schema((k.0, k.1)),
        m.has_catalog(k.0),
        kind_of(m, k) == Some(m.table(k).unwrap().kind()),
{
    let i = m.table_index(k);
    assert(m.schemas.contains((m.tables[i].0.0, m.tables[i].0.1)));
    let j = choose|j: int| 0 <= j < m.schemas.len() && m.schemas[j] == (k.0, k.1);
    assert(m.catalogs.contains(m.schemas[j].0));
}

/// The kind of the table registered under `k`, if any.
pub open spec fn kind_of(m: ClusterModel, k: TableKey) -> Option<TableKind> {
    match m.table(k) {
        Some(info) => Some(info.kind()),
        None => None,
    }
}

} // verus!
