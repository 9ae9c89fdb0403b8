//! Route table: which routes a server offers, and in which order a request
//! is held against them.
use vstd::prelude::*;

verus! {

/// Path segment under which GraphQL requests are answered.
pub const GRAPHQL_SEGMENT: &'static str = "graphql";

/// Path segment under which the interactive client is served.
pub const PLAYGROUND_SEGMENT: &'static str = "playground";

/// Where a single-page application lives on disk.
#[derive(Clone, Debug, PartialEq, Eq)]
pub struct SpaConfig {
    /// Directory whose files are served by path.
    pub assets: String,
    /// File that answers every request no other route takes.
    pub index: String,
}

/// What a [`SpaConfig`] says, as plain text.
pub struct SpaPaths {
    pub assets: Seq<char>,
    pub index: Seq<char>,
}

impl View for SpaConfig {
    type V = SpaPaths;

    open spec fn view(&self) -> SpaPaths {
        SpaPaths { assets: self.assets@, index: self.index@ }
    }
}

/// The request method a route answers.
#[derive(Clone, Copy, Debug, PartialEq, Eq, Structural)]
pub enum Method {
    Get,
    Post,
}

/// One entry of the route table.
#[derive(Clone, Debug, PartialEq, Eq)]
pub enum Route {
    /// The interactive client page.
    Playground,
    /// The GraphQL endpoint.
    Graphql,
    /// Files of the directory `dir`, by path.
    Assets { dir: String },
    /// The file `file`, whatever the path.
    SpaFallback { file: String },
}

/// A [`Route`] with its paths as plain text.
pub enum RouteEntry {
    Playground,
    Graphql,
    Assets { dir: Seq<char> },
    SpaFallback { file: Seq<char> },
}

impl View for Route {
    type V = RouteEntry;

    open spec fn view(&self) -> RouteEntry {
        match *self {
            Route::Playground => RouteEntry::Playground,
            Route::Graphql => RouteEntry::Graphql,
            Route::Assets { dir } => RouteEntry::Assets { dir: dir@ },
            Route::SpaFallback { file } => RouteEntry::SpaFallback { file: file@ },
        }
    }
}

impl RouteEntry {
    /// The method the route answers: the GraphQL endpoint takes `POST`, every
    /// other route `GET`.
    pub open spec fn method(self) -> Method {
        match self {
            RouteEntry::Graphql => Method::Post,
            _ => Method::Get,
        }
    }

    /// The one path segment the route is mounted on, for the two routes that
    /// have a fixed path.
    pub open spec fn segment(self) -> Option<Seq<char>> {
        match self {
            RouteEntry::Playground => Some(PLAYGROUND_SEGMENT@),
            RouteEntry::Graphql => Some(GRAPHQL_SEGMENT@),
            _ => None,
        }
    }

    /// Whether the route also answers `HEAD`, which asks for what `GET` would
    /// give without the body: the two routes that serve files do.
    pub open spec fn answers_head(self) -> bool {
        self is Assets || self is SpaFallback
    }

    /// Whether the route takes a request whatever its path.
    pub open spec fn is_catch_all(self) -> bool {
        self is SpaFallback
    }
}

/// The route table of a server, first entry first: the playground and the
/// GraphQL endpoint, then, where a single-page application is configured, its
/// assets and last its index file.
pub open spec fn route_table(spa: Option<SpaPaths>) -> Seq<RouteEntry> {
    let fixed = seq![RouteEntry::Playground, RouteEntry::Graphql];
    match spa {
        Some(paths) => fixed + seq![
            RouteEntry::Assets { dir: paths.assets },
            RouteEntry::SpaFallback { file: paths.index },
        ],
        None => fixed,
    }
}

/// The entries of `routes`, each as plain text.
pub open spec fn entries(routes: Seq<Route>) -> Seq<RouteEntry> {
    routes.map_values(|route: Route| route@)
}

/// The configured paths, if any, as plain text.
pub open spec fn paths_of(spa: Option<&SpaConfig>) -> Option<SpaPaths> {
    match spa {
        Some(config) => Some(config@),
        None => None,
    }
}

impl Route {
    /// The method this route answers.
    pub fn method(&self) -> (method: Method)
        ensures
            method == self@.method(),
    {
        match self {
            Route::Graphql => Method::Post,
            _ => Method::Get,
        }
    }

    /// The path segment this route is mounted on, if it has a fixed path.
    pub fn segment(&self) -> (segment: Option<&'static str>)
        ensures
            segment is Some == self@.segment() is Some,
            segment matches Some(s) ==> Some(s@) == self@.segment(),
    {
        match self {
            Route::Playground => Some(PLAYGROUND_SEGMENT),
            Route::Graphql => Some(GRAPHQL_SEGMENT),
            _ => None,
        }
    }

    /// Whether this route also answers `HEAD`.
    pub fn answers_head(&self) -> (head: bool)
        ensures
            head == self@.answers_head(),
    {
        match self {
            Route::Assets { .. } => true,
            Route::SpaFallback { .. } => true,
            _ => false,
        }
    }

    /// Whether this route takes a request whatever its path.
    pub fn is_catch_all(&self) -> (all: bool)
        ensures
            all == self@.is_catch_all(),
    {
        match self {
            Route::SpaFallback { .. } => true,
            _ => false,
        }
    }
}

/// Lays out the route table for a server with the given single-page
/// application, if any.
pub fn build_routes(spa: Option<&SpaConfig>) -> (routes: Vec<Route>)
    ensures
        entries(routes@) == route_table(paths_of(spa)),
{
    let mut routes: Vec<Route> = Vec::new();
    routes.push(Route::Playground);
    routes.push(Route::Graphql);
    if let Some(config) = spa {
        routes.push(Route::Assets { dir: config.assets.clone() });
        routes.push(Route::SpaFallback { file: config.index.clone() });
    }
    assert(entries(routes@) =~= route_table(paths_of(spa)));
    routes
}

/// The playground and the GraphQL endpoint head every route table, in that
/// order, whatever else is configured.
pub proof fn lemma_fixed_routes_come_first(spa: Option<SpaPaths>)
    ensures
        route_table(spa).len() >= 2,
        route_table(spa)[0] == RouteEntry::Playground,
        route_table(spa)[1] == RouteEntry::Graphql,
{
}

/// A server without a single-page application has the two fixed routes and
/// nothing else; one with an application serves its assets third and its
/// index file last.
pub proof fn lemma_spa_routes_come_last(spa: Option<SpaPaths>)
    ensures
        spa is None ==> route_table(spa).len() == 2,
        spa matches Some(paths) ==> {
            &&& route_table(spa).len() == 4
            &&& route_table(spa)[2] == RouteEntry::Assets { dir: paths.assets }
            &&& route_table(spa)[3] == RouteEntry::SpaFallback { file: paths.index }
        },
{
}

/// A route table names no directory and no file but those of the
/// configuration it was laid out for.
pub proof fn lemma_routes_name_own_paths(spa: Option<SpaPaths>, i: int)
    requires
        0 <= i < route_table(spa).len(),
    ensures
        route_table(spa)[i] matches RouteEntry::Assets { dir } ==> spa matches Some(paths)
            && paths.assets == dir,
        route_table(spa)[i] matches RouteEntry::SpaFallback { file } ==> spa matches Some(paths)
            && paths.index == file,
{
}

/// Only the last route of a table takes every path, and only where a
/// single-page application is configured: no route is ever shadowed.
pub proof fn lemma_catch_all_is_last(spa: Option<SpaPaths>, i: int)
    requires
        0 <= i < route_table(spa).len(),
    ensures
        route_table(spa)[i].is_catch_all() <==> spa is Some && i == route_table(spa).len() - 1,
{
}

/// `HEAD` is answered only where `GET` is: never by the GraphQL endpoint.
pub proof fn lemma_head_goes_with_get(entry: RouteEntry)
    ensures
        entry.answers_head() ==> entry.method() == Method::Get,
{
}

/// A fixed path is one segment: it is not empty and holds no slash.
pub proof fn lemma_segments_are_single(entry: RouteEntry)
    ensures
        entry.segment() matches Some(s) ==> s.len() > 0 && !s.contains('/'),
{
    reveal_strlit("graphql");
    reveal_strlit("playground");
    if let Some(s) = entry.segment() {
        assert(forall|i: int| 0 <= i < s.len() ==> s[i] != '/');
    }
}

} // verus!
