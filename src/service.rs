//! The request handlers of the engine service: what a remote client's get,
//! create and configure requests do to the connection's session.
use vstd::prelude::*;
use crate::cluster::TableEntry;
use crate::config::EllaConfig;
use crate::error::Error;
use crate::ident::{SchemaId, SchemaRef, TableRef};
use crate::info::TableInfo;
use crate::state::{catalog_creation, entry_outcome, schema_creation, schema_outcome, table_creation, EllaState};

verus! {

/// The reach of a configuration request.
#[derive(PartialEq, Eq, Structural, Clone, Copy, Debug)]
pub enum ConfigScope {
    /// The requesting connection's session.
    Connection,
    /// Every session of the cluster.
    Cluster,
}

/// The registered table a reference names, resolved against the session's
/// defaults.
pub fn get_table(state: &EllaState, table: &TableRef) -> (r: Option<TableEntry>)
    requires
        state.inv(),
    ensures
        ({
            let c = state.config_spec()@;
            let k = table.spec_resolve(c.default_catalog, c.default_schema);
            match r {
                Some(e) => e.id@ == k && state.model().table(k) == Some(e.info@),
                None => state.model().table(k).is_none(),
            }
        }),
{
    let id = state.resolve(table);
    match state.table(&id) {
        Some(info) => Some(TableEntry { id: id.duplicate(), info: info.duplicate() }),
        None => None,
    }
}

/// Creates a table from a request whose table name and definition may be
/// missing, which is an invalid argument.
pub fn create_table(
    state: &mut EllaState,
    table: Option<TableRef>,
    info: Option<TableInfo>,
    if_not_exists: bool,
    or_replace: bool,
) -> (r: Result<TableEntry, Error>)
    requires
        old(state).inv(),
    ensures
        final(state).inv(),
        final(state).config_spec() == old(state).config_spec(),
        r is Err ==> *final(state) == *old(state),
        (table is None || info is None) ==> (r matches Err(Error::InvalidArgument(_))),
        (table is Some && info is Some) ==> table_creation(
            old(state).model(),
            old(state).is_closed(),
            table.unwrap().spec_resolve(old(state).config_spec()@.default_catalog, old(state).config_spec()@.default_schema),
            info.unwrap()@,
            if_not_exists,
            or_replace,
            entry_outcome(r),
            final(state).model(),
        ),
{
    let t = match table {
        Some(t) => t,
        None => {
            return Err(Error::InvalidArgument("missing table field in request".to_owned()));
        },
    };
    let i = match info {
        Some(i) => i,
        None => {
            return Err(Error::InvalidArgument("missing info field in request".to_owned()));
        },
    };
    let id = state.resolve(&t);
    state.create_table(id, i, if_not_exists, or_replace)
}

/// Creates a catalog and answers with its name.
pub fn create_catalog(state: &mut EllaState, catalog: &String, if_not_exists: bool) -> (r: Result<String, Error>)
    requires
        old(state).inv(),
    ensures
        final(state).inv(),
        final(state).config_spec() == old(state).config_spec(),
        r is Err ==> *final(state) == *old(state),
        r matches Ok(n) ==> n@ == catalog@,
        catalog_creation(
            old(state).model(),
            old(state).is_closed(),
            catalog@,
            if_not_exists,
            match r {
                Ok(_) => Ok(()),
                Err(e) => Err(e),
            },
            final(state).model(),
        ),
{
    match state.create_catalog(catalog, if_not_exists) {
        Ok(()) => Ok(catalog.clone()),
        Err(e) => Err(e),
    }
}

/// Creates a schema and answers with its resolved name.
pub fn create_schema(state: &mut EllaState, schema: &SchemaRef, if_not_exists: bool) -> (r: Result<SchemaId, Error>)
    requires
        old(state).inv(),
    ensures
        final(state).inv(),
        final(state).config_spec() == old(state).config_spec(),
        r is Err ==> *final(state) == *old(state),
        schema_creation(
            old(state).model(),
            old(state).is_closed(),
            schema.spec_resolve(old(state).config_spec()@.default_catalog),
            if_not_exists,
            schema_outcome(r),
            final(state).model(),
        ),
{
    state.create_schema(schema, if_not_exists)
}

/// The configuration a get request answers with. A request without a known
/// scope is an invalid argument; the cluster scope is not supported.
pub fn get_config(state: &EllaState, scope: Option<ConfigScope>) -> (r: Result<EllaConfig, Error>)
    ensures
        scope is None ==> (r matches Err(Error::InvalidArgument(_))),
        scope == Some(ConfigScope::Cluster) ==> (r matches Err(Error::Unimplemented(_))),
        scope == Some(ConfigScope::Connection) ==> (r matches Ok(c) && c@ == state.config_spec()@),
{
    match scope {
        None => Err(Error::InvalidArgument("invalid config scope".to_owned())),
        Some(ConfigScope::Cluster) => Err(Error::Unimplemented("cluster-wide configuration".to_owned())),
        Some(ConfigScope::Connection) => Ok(state.config().duplicate()),
    }
}

/// Replaces the connection's configuration as a whole and answers with it. A
/// request without a known scope is an invalid argument; the cluster scope is
/// not supported. Neither changes anything.
pub fn set_config(state: &mut EllaState, scope: Option<ConfigScope>, config: EllaConfig) -> (r: Result<
    EllaConfig,
    Error,
>)
    ensures
        final(state).model() == old(state).model(),
        final(state).inv() == old(state).inv(),
        scope is None ==> (r matches Err(Error::InvalidArgument(_))) && final(state).config_spec() == old(
            state,
        ).config_spec(),
        scope == Some(ConfigScope::Cluster) ==> (r matches Err(Error::Unimplemented(_))) && final(state).config_spec()
            == old(state).config_spec(),
        scope == Some(ConfigScope::Connection) ==> (r matches Ok(c) && c@ == config@) && final(state).config_spec()
            == config,
{
    match scope {
        None => Err(Error::InvalidArgument("invalid config scope".to_owned())),
        Some(ConfigScope::Cluster) => Err(Error::Unimplemented("cluster-wide configuration".to_owned())),
        Some(ConfigScope::Connection) => {
            let answer = config.duplicate();
            state.with_config(config);
            Ok(answer)
        },
    }
}

} // verus!
