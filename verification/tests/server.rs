use simple_graphql::server::{
    advance, bind_address, start_banner, Action, Event, Phase, Step, MIGRATIONS_DIR, PORT,
};

const PHASES: [Phase; 3] = [Phase::NotStarted, Phase::Migrating, Phase::Serving];
const EVENTS: [Event; 3] = [Event::Launched, Event::MigrationsApplied, Event::MigrationsFailed];

#[test]
fn binds_to_all_interfaces_on_3030() {
    let address = bind_address();
    assert_eq!(address.ip, [0, 0, 0, 0]);
    assert_eq!(address.port, 3030);
    assert_eq!(PORT, 3030);
}

#[test]
fn banner_lists_the_address_and_the_two_routes() {
    assert_eq!(
        start_banner(),
        "Running at http://0.0.0.0:3030\n\nRoutes:\n\t/graphql\n\t/playground\n"
    );
}

#[test]
fn banner_names_the_bind_address() {
    let address = bind_address();
    let [a, b, c, d] = address.ip;
    let url = format!("http://{}.{}.{}.{}:{}", a, b, c, d, address.port);
    assert!(start_banner().contains(&url));
}

#[test]
fn migrations_live_in_the_migrations_directory() {
    assert_eq!(MIGRATIONS_DIR, "./migrations");
}

#[test]
fn launch_without_storage_serves_at_once() {
    assert_eq!(
        advance(Phase::NotStarted, false, Event::Launched),
        Step { phase: Phase::Serving, action: Action::Serve }
    );
}

#[test]
fn launch_with_storage_applies_migrations_first() {
    assert_eq!(
        advance(Phase::NotStarted, true, Event::Launched),
        Step { phase: Phase::Migrating, action: Action::ApplyMigrations }
    );
}

#[test]
fn applied_migrations_lead_to_serving() {
    assert_eq!(
        advance(Phase::Migrating, true, Event::MigrationsApplied),
        Step { phase: Phase::Serving, action: Action::Serve }
    );
}

#[test]
fn failed_migrations_are_logged_and_the_server_serves_anyway() {
    assert_eq!(
        advance(Phase::Migrating, true, Event::MigrationsFailed),
        Step { phase: Phase::Serving, action: Action::LogAndServe }
    );
}

#[test]
fn serving_is_never_left() {
    for has_storage in [false, true] {
        for event in EVENTS {
            assert_eq!(
                advance(Phase::Serving, has_storage, event),
                Step { phase: Phase::Serving, action: Action::Ignore }
            );
        }
    }
}

#[test]
fn events_out_of_turn_change_nothing() {
    for has_storage in [false, true] {
        assert_eq!(
            advance(Phase::NotStarted, has_storage, Event::MigrationsApplied),
            Step { phase: Phase::NotStarted, action: Action::Ignore }
        );
        assert_eq!(
            advance(Phase::NotStarted, has_storage, Event::MigrationsFailed),
            Step { phase: Phase::NotStarted, action: Action::Ignore }
        );
        assert_eq!(
            advance(Phase::Migrating, has_storage, Event::Launched),
            Step { phase: Phase::Migrating, action: Action::Ignore }
        );
    }
}

#[test]
fn every_launch_ends_in_serving() {
    for has_storage in [false, true] {
        for outcome in [Event::MigrationsApplied, Event::MigrationsFailed] {
            let mut step = advance(Phase::NotStarted, has_storage, Event::Launched);
            if step.phase != Phase::Serving {
                step = advance(step.phase, has_storage, outcome);
            }
            assert_eq!(step.phase, Phase::Serving);
        }
    }
}

#[test]
fn serving_starts_only_on_entering_the_serving_phase() {
    for phase in PHASES {
        for has_storage in [false, true] {
            for event in EVENTS {
                let step = advance(phase, has_storage, event);
                let starts = step.action == Action::Serve || step.action == Action::LogAndServe;
                assert_eq!(starts, phase != Phase::Serving && step.phase == Phase::Serving);
            }
        }
    }
}
