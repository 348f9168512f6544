//! Hierarchical names: `catalog.schema.table`, and partial references that are
//! resolved against session defaults.
use vstd::prelude::*;

verus! {

/// The name of a schema inside a catalog.
#[derive(Debug)]
pub struct SchemaId {
    pub catalog: String,
    pub schema: String,
}

/// A fully resolved table name.
#[derive(Debug)]
pub struct TableId {
    pub catalog: String,
    pub schema: String,
    pub table: String,
}

/// A table name whose catalog and schema may be left out.
#[derive(Debug)]
pub struct TableRef {
    pub catalog: Option<String>,
    pub schema: Option<String>,
    pub table: String,
}

/// A schema name whose catalog may be left out.
#[derive(Debug)]
pub struct SchemaRef {
    pub catalog: Option<String>,
    pub schema: String,
}

pub type Name = Seq<char>;

/// The mathematical value of a table name.
pub type TableKey = (Name, Name, Name);

/// The mathematical value of a schema name.
pub type SchemaKey = (Name, Name);

impl View for SchemaId {
    type V = SchemaKey;

    open spec fn view(&self) -> SchemaKey {
        (self.catalog@, self.schema@)
    }
}

impl View for TableId {
    type V = TableKey;

    open spec fn view(&self) -> TableKey {
        (self.catalog@, self.schema@, self.table@)
    }
}

/// `Some(s)` stands for `s`; `None` for the default `d`.
pub open spec fn or_default(o: Option<String>, d: Name) -> Name {
    match o {
        Some(s) => s@,
        None => d,
    }
}

impl SchemaId {
    pub fn new(catalog: &String, schema: &String) -> (r: SchemaId)
        ensures
            r@ == (catalog@, schema@),
    {
        SchemaId { catalog: catalog.clone(), schema: schema.clone() }
    }

    pub fn duplicate(&self) -> (r: SchemaId)
        ensures
            r@ == self@,
    {
        SchemaId::new(&self.catalog, &self.schema)
    }
}

impl TableId {
    pub fn new(catalog: &String, schema: &String, table: &String) -> (r: TableId)
        ensures
            r@ == (catalog@, schema@, table@),
    {
        TableId { catalog: catalog.clone(), schema: schema.clone(), table: table.clone() }
    }

    pub fn duplicate(&self) -> (r: TableId)
        ensures
            r@ == self@,
    {
        TableId::new(&self.catalog, &self.schema, &self.table)
    }

    /// The schema that holds this table.
    pub fn schema_id(&self) -> (r: SchemaId)
        ensures
            r@ == (self@.0, self@.1),
    {
        SchemaId::new(&self.catalog, &self.schema)
    }

    pub fn same(&self, other: &TableId) -> (r: bool)
        ensures
            r == (self@ == other@),
    {
        self.catalog == other.catalog && self.schema == other.schema && self.table == other.table
    }
}

impl SchemaId {
    pub fn same(&self, other: &SchemaId) -> (r: bool)
        ensures
            r == (self@ == other@),
    {
        self.catalog == other.catalog && self.schema == other.schema
    }
}

fn resolve_part(part: &Option<String>, default: &String) -> (r: String)
    ensures
        r@ == or_default(*part, default@),
{
    match part {
        Some(s) => s.clone(),
        None => default.clone(),
    }
}

impl TableRef {
    /// A reference that names only the table.
    pub fn bare(table: &String) -> (r: TableRef)
        ensures
            r.catalog.is_none(),
            r.schema.is_none(),
            r.table@ == table@,
    {
        TableRef { catalog: None, schema: None, table: table.clone() }
    }

    /// A reference that names all three levels.
    pub fn full(id: &TableId) -> (r: TableRef)
        ensures
            r.spec_resolve(Seq::empty(), Seq::empty()) == id@,
            r.catalog.is_some(),
            r.schema.is_some(),
    {
        TableRef {
            catalog: Some(id.catalog.clone()),
            schema: Some(id.schema.clone()),
            table: id.table.clone(),
        }
    }

    pub open spec fn spec_resolve(&self, catalog: Name, schema: Name) -> TableKey {
        (or_default(self.catalog, catalog), or_default(self.schema, schema), self.table@)
    }

    /// Fills in the levels that are left out from the defaults.
    pub fn resolve(&self, default_catalog: &String, default_schema: &String) -> (r: TableId)
        ensures
            r@ == self.spec_resolve(default_catalog@, default_schema@),
    {
        TableId {
            catalog: resolve_part(&self.catalog, default_catalog),
            schema: resolve_part(&self.schema, default_schema),
            table: self.table.clone(),
        }
    }
}

impl SchemaRef {
    pub open spec fn spec_resolve(&self, catalog: Name) -> SchemaKey {
        (or_default(self.catalog, catalog), self.schema@)
    }

    /// Fills in the catalog from the default when it is left out.
    pub fn resolve(&self, default_catalog: &String) -> (r: SchemaId)
        ensures
            r@ == self.spec_resolve(default_catalog@),
    {
        SchemaId { catalog: resolve_part(&self.catalog, default_catalog), schema: self.schema.clone() }
    }
}

} // verus!
