//! Server runner: where the server listens, what it announces, and the steps
//! that take it from launch to serving.
use crate::routes::{GRAPHQL_SEGMENT, PLAYGROUND_SEGMENT};
use vstd::prelude::*;

verus! {

/// The port the server listens on.
pub const PORT: u16 = 3030;

/// The directory, relative to where the server runs, that holds the
/// migrations applied at start-up.
pub const MIGRATIONS_DIR: &'static str = "./migrations";

/// A socket address: the four octets of an IPv4 address and a port.
#[derive(Clone, Copy, Debug, PartialEq, Eq)]
pub struct BindAddress {
    pub ip: [u8; 4],
    pub port: u16,
}

/// Where a server stands between launch and serving.
#[derive(Clone, Copy, Debug, PartialEq, Eq, Structural)]
pub enum Phase {
    /// Configured, nothing done yet.
    NotStarted,
    /// Pending migrations are being applied to the database.
    Migrating,
    /// Requests are being answered. No phase follows.
    Serving,
}

/// What happened to a server.
#[derive(Clone, Copy, Debug, PartialEq, Eq, Structural)]
pub enum Event {
    /// The server was launched.
    Launched,
    /// The pending migrations were applied, or there were none.
    MigrationsApplied,
    /// Applying the migrations failed.
    MigrationsFailed,
}

/// What the runner does next.
#[derive(Clone, Copy, Debug, PartialEq, Eq, Structural)]
pub enum Action {
    /// Apply the pending migrations to the database, then report how it went.
    ApplyMigrations,
    /// Announce the server and answer requests from now on.
    Serve,
    /// Log the failure, then announce the server and answer requests.
    LogAndServe,
    /// Nothing: the event does not concern a server in this phase.
    Ignore,
}

/// A phase and the action that leads into it.
#[derive(Clone, Copy, Debug, PartialEq, Eq, Structural)]
pub struct Step {
    pub phase: Phase,
    pub action: Action,
}

/// The address every server binds to: all interfaces, port 3030.
pub open spec fn listens_everywhere(address: BindAddress) -> bool {
    &&& address.ip@ == seq![0u8, 0u8, 0u8, 0u8]
    &&& address.port == PORT
}

/// The text announced once the server is about to answer requests.
pub open spec fn banner_text() -> Seq<char> {
    "Running at http://0.0.0.0:3030\n"@ + "\nRoutes:\n"@ + "\t/"@ + GRAPHQL_SEGMENT@ + "\n"@
        + "\t/"@ + PLAYGROUND_SEGMENT@ + "\n"@
}

/// How a server moves on. A launched server applies migrations first if it
/// has a database and serves at once if it has none; once the migrations are
/// through it serves, whether they succeeded or not; a serving server stays
/// as it is.
pub open spec fn next_step(phase: Phase, has_storage: bool, event: Event) -> Step {
    match (phase, event) {
        (Phase::NotStarted, Event::Launched) => if has_storage {
            Step { phase: Phase::Migrating, action: Action::ApplyMigrations }
        } else {
            Step { phase: Phase::Serving, action: Action::Serve }
        },
        (Phase::Migrating, Event::MigrationsApplied) => Step {
            phase: Phase::Serving,
            action: Action::Serve,
        },
        (Phase::Migrating, Event::MigrationsFailed) => Step {
            phase: Phase::Serving,
            action: Action::LogAndServe,
        },
        _ => Step { phase, action: Action::Ignore },
    }
}

/// The address every server binds to.
pub fn bind_address() -> (address: BindAddress)
    ensures
        listens_everywhere(address),
{
    let address = BindAddress { ip: [0u8, 0u8, 0u8, 0u8], port: PORT };
    assert(address.ip@ =~= seq![0u8, 0u8, 0u8, 0u8]);
    address
}

/// The text to announce once the server is about to answer requests: the
/// address, then the two fixed routes, one per line.
pub fn start_banner() -> (banner: String)
    ensures
        banner@ == banner_text(),
{
    let mut banner = "Running at http://0.0.0.0:3030\n".to_owned();
    banner.append("\nRoutes:\n");
    banner.append("\t/");
    banner.append(GRAPHQL_SEGMENT);
    banner.append("\n");
    banner.append("\t/");
    banner.append(PLAYGROUND_SEGMENT);
    banner.append("\n");
    banner
}

/// Decides what a server in `phase` does on `event`.
pub fn advance(phase: Phase, has_storage: bool, event: Event) -> (step: Step)
    ensures
        step == next_step(phase, has_storage, event),
{
    match (phase, event) {
        (Phase::NotStarted, Event::Launched) => if has_storage {
            Step { phase: Phase::Migrating, action: Action::ApplyMigrations }
        } else {
            Step { phase: Phase::Serving, action: Action::Serve }
        },
        (Phase::Migrating, Event::MigrationsApplied) => Step {
            phase: Phase::Serving,
            action: Action::Serve,
        },
        (Phase::Migrating, Event::MigrationsFailed) => Step {
            phase: Phase::Serving,
            action: Action::LogAndServe,
        },
        _ => Step { phase, action: Action::Ignore },
    }
}

/// Migrations are applied exactly when the launched server has a database.
pub proof fn lemma_migrations_need_storage(has_storage: bool)
    ensures
        next_step(Phase::NotStarted, has_storage, Event::Launched).action
            == Action::ApplyMigrations <==> has_storage,
{
}

/// A launched server ends up serving, with or without a database and
/// however the migrations went.
pub proof fn lemma_launch_ends_in_serving(has_storage: bool, migrations: Event)
    requires
        migrations != Event::Launched,
    ensures
        ({
            let launched = next_step(Phase::NotStarted, has_storage, Event::Launched);
            launched.phase == Phase::Serving || next_step(
                launched.phase,
                has_storage,
                migrations,
            ).phase == Phase::Serving
        }),
{
}

/// A serving server keeps serving: no event stops it or starts it anew.
pub proof fn lemma_serving_is_final(has_storage: bool, event: Event)
    ensures
        next_step(Phase::Serving, has_storage, event) == (Step {
            phase: Phase::Serving,
            action: Action::Ignore,
        }),
{
}

/// A server starts to answer requests only on entering the serving phase,
/// and it enters that phase at most once.
pub proof fn lemma_serves_on_entering(phase: Phase, has_storage: bool, event: Event)
    ensures
        ({
            let step = next_step(phase, has_storage, event);
            (step.action == Action::Serve || step.action == Action::LogAndServe) <==> (phase
                != Phase::Serving && step.phase == Phase::Serving)
        }),
{
}

} // verus!
