use vstd::prelude::*;

use crate::schema::{schema_resolves, SchemaError, SchemaRegistry};
use crate::uri::{
    parse_storage_uri, same_ignoring_ascii_case, scheme_of, sqlite_scheme, uri_accepted,
    Backend, ConnectionError, StorageUri,
};

verus! {

/// Why the store could not be prepared; both are fatal at startup.
#[derive(Clone, Debug)]
pub enum StartupError {
    Schema(SchemaError),
    Connection(ConnectionError),
}

/// Seals the registry, then reads the storage URI: what a connection needs before
/// the store is opened.
pub fn prepare_connection(registry: &mut SchemaRegistry, uri: &str) -> (r: Result<
    StorageUri,
    StartupError,
>)
    requires
        old(registry).wf(),
    ensures
        final(registry).wf(),
        final(registry).entities() == old(registry).entities(),
        schema_resolves(old(registry).entities()) ==> final(registry).is_sealed(),
        r matches Err(StartupError::Schema(_)) <==> !schema_resolves(old(registry).entities()),
        r is Ok <==> schema_resolves(old(registry).entities()) && uri_accepted(uri@)
            && same_ignoring_ascii_case(scheme_of(uri@), sqlite_scheme()),
        r matches Ok(u) ==> u.backend == Backend::Sqlite && u.uri@ == uri@,
        r matches Err(StartupError::Connection(ConnectionError::InvalidUri(_))) <==> schema_resolves(
            old(registry).entities(),
        ) && !uri_accepted(uri@),
        r matches Err(StartupError::Connection(ConnectionError::UnsupportedBackend(s))) ==> s@
            == scheme_of(uri@),
{
    match registry.finalize() {
        Err(e) => Err(StartupError::Schema(e)),
        Ok(()) => match parse_storage_uri(uri) {
            Ok(u) => Ok(u),
            Err(e) => Err(StartupError::Connection(e)),
        },
    }
}

} // verus!
