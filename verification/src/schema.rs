//! Schema assembler: collects what a server is made of and turns it into an
//! executable schema and a route table.
use crate::routes::{build_routes, entries, paths_of, route_table, Route, SpaConfig, SpaPaths};
use crate::sqlite::SimpleSqlite;
use vstd::prelude::*;

verus! {

#[verifier::external_type_specification]
#[verifier::external_body]
#[verifier::reject_recursive_types(Q)]
#[verifier::reject_recursive_types(M)]
#[verifier::reject_recursive_types(S)]
pub struct ExSchemaBuilder<Q, M, S>(async_graphql::SchemaBuilder<Q, M, S>);

/// The configuration of one server: a schema under construction, at most one
/// database and at most one single-page application.
#[verifier::reject_recursive_types(Q)]
#[verifier::reject_recursive_types(M)]
#[verifier::reject_recursive_types(S)]
pub struct SimpleGraphql<Q, M, S> {
    builder: async_graphql::SchemaBuilder<Q, M, S>,
    sqlite: Option<SimpleSqlite>,
    spa: Option<SpaConfig>,
}

/// A server ready to be run.
#[verifier::reject_recursive_types(Q)]
#[verifier::reject_recursive_types(M)]
#[verifier::reject_recursive_types(S)]
pub struct Assembly<Q, M, S> {
    /// The schema, ready to be finished. Its context holds a handle on the
    /// pool of `storage`, where there is one.
    pub builder: async_graphql::SchemaBuilder<Q, M, S>,
    /// The database the server was configured with.
    pub storage: Option<SimpleSqlite>,
    /// The route table, first entry first.
    pub routes: Vec<Route>,
}

/// Calls `SchemaBuilder::data` with the pool of `handle`, which stores the
/// pool in the context that every resolver of the schema can read.
#[verifier::external_body]
fn attach_pool<Q, M, S>(
    builder: async_graphql::SchemaBuilder<Q, M, S>,
    handle: SimpleSqlite,
) -> async_graphql::SchemaBuilder<Q, M, S> {
    builder.data(handle.pool)
}

impl<Q, M, S> SimpleGraphql<Q, M, S> {
    /// The schema under construction.
    pub closed spec fn builder(&self) -> async_graphql::SchemaBuilder<Q, M, S> {
        self.builder
    }

    /// The configured database, if any.
    pub closed spec fn storage(&self) -> Option<SimpleSqlite> {
        self.sqlite
    }

    /// The configured single-page application, if any.
    pub closed spec fn spa(&self) -> Option<SpaPaths> {
        match self.spa {
            Some(config) => Some(config@),
            None => None,
        }
    }

    /// A server for the schema of `builder`, with no database and no
    /// single-page application.
    pub fn new(builder: async_graphql::SchemaBuilder<Q, M, S>) -> (server: Self)
        ensures
            server.builder() == builder,
            server.storage() is None,
            server.spa() is None,
    {
        Self { builder, sqlite: None, spa: None }
    }

    /// The same server with `sqlite` as its database, in place of any it had.
    pub fn with_sqlite(self, sqlite: SimpleSqlite) -> (server: Self)
        ensures
            server.storage() == Some(sqlite),
            server.builder() == self.builder(),
            server.spa() == self.spa(),
    {
        Self { builder: self.builder, sqlite: Some(sqlite), spa: self.spa }
    }

    /// The same server with a single-page application whose files are in
    /// `assets_dir` and whose entry file is `index_file`, in place of any it
    /// had.
    pub fn with_spa(self, assets_dir: &str, index_file: &str) -> (server: Self)
        ensures
            server.spa() == Some(SpaPaths { assets: assets_dir@, index: index_file@ }),
            server.builder() == self.builder(),
            server.storage() == self.storage(),
    {
        let spa = SpaConfig { assets: assets_dir.to_owned(), index: index_file.to_owned() };
        Self { builder: self.builder, sqlite: self.sqlite, spa: Some(spa) }
    }

    /// Whether a database is configured.
    pub fn has_storage(&self) -> (has: bool)
        ensures
            has == self.storage() is Some,
    {
        self.sqlite.is_some()
    }

    /// The configured single-page application, if any.
    pub fn spa_config(&self) -> (spa: Option<&SpaConfig>)
        ensures
            paths_of(spa) == self.spa(),
    {
        self.spa.as_ref()
    }

    /// Readies the schema and lays out the routes. A handle on the
    /// configured database, if there is one, is put into the schema's
    /// context, and the database is handed on for the start-up work; without
    /// a database the schema is left as it was given.
    pub fn assemble(self) -> (assembly: Assembly<Q, M, S>)
        ensures
            assembly.storage == self.storage(),
            self.storage() is None ==> assembly.builder == self.builder(),
            entries(assembly.routes@) == route_table(self.spa()),
    {
        let routes = build_routes(self.spa.as_ref());
        match self.sqlite {
            Some(sqlite) => {
                let handle = sqlite.pool();
                let builder = attach_pool(self.builder, handle);
                Assembly { builder, storage: Some(sqlite), routes }
            },
            None => Assembly { builder: self.builder, storage: None, routes },
        }
    }
}

} // verus!
