use pg_embed::command_executor::{outcome_result, ProcessOutcome};
use pg_embed::pg_access::PgAccess;
use pg_embed::pg_enums::{
    Architecture, OperationSystem, PgAuthMethod, PgProcessType, PgServerStatus,
};
use pg_embed::pg_errors::PgEmbedError;
use pg_embed::pg_fetch::PgFetchSettings;
use pg_embed::pg_fs::FsSnapshot;
use pg_embed::postgres::{PgEmbed, PgSettings};

fn controller(persistent: bool) -> PgEmbed {
    let fetch_settings = PgFetchSettings {
        host: "https://repo1.maven.org".to_string(),
        operating_system: OperationSystem::Linux,
        architecture: Architecture::Amd64,
        version: "13.2.0".to_string(),
    };
    let pg_access = PgAccess::new(
        &fetch_settings,
        &"data/db".to_string(),
        Some(&"data/postgres".to_string()),
    )
    .unwrap();
    let pg_settings = PgSettings {
        database_dir: "data/db".to_string(),
        port: 5432,
        user: "postgres".to_string(),
        password: "pw".to_string(),
        auth_method: PgAuthMethod::Plain,
        persistent,
        timeout_ms: Some(1000),
        migration_dir: None,
    };
    PgEmbed::new(pg_settings, pg_access)
}

#[test]
fn lifecycle_visits_every_status_in_order() {
    let mut pg = controller(false);
    let clean_exit = ProcessOutcome::Exited { code: 0 };
    let mut seen = vec![pg.server_status];

    pg.begin_operation(PgProcessType::InitDb);
    seen.push(pg.server_status);
    pg.complete_operation(PgProcessType::InitDb, &clean_exit).unwrap();
    seen.push(pg.server_status);

    pg.begin_operation(PgProcessType::StartDb);
    seen.push(pg.server_status);
    pg.complete_operation(PgProcessType::StartDb, &clean_exit).unwrap();
    seen.push(pg.server_status);

    pg.begin_operation(PgProcessType::StopDb);
    seen.push(pg.server_status);
    pg.complete_operation(PgProcessType::StopDb, &clean_exit).unwrap();
    seen.push(pg.server_status);

    assert_eq!(
        seen,
        vec![
            PgServerStatus::Uninitialized,
            PgServerStatus::Initializing,
            PgServerStatus::Initialized,
            PgServerStatus::Starting,
            PgServerStatus::Started,
            PgServerStatus::Stopping,
            PgServerStatus::Stopped,
        ]
    );
}

#[test]
fn start_without_setup_fails_rather_than_passing() {
    let mut pg = controller(false);
    assert_eq!(pg.server_status, PgServerStatus::Uninitialized);
    pg.begin_operation(PgProcessType::StartDb);
    let spawn_failed = ProcessOutcome::SpawnFailed { e: "no such file".to_string() };
    let r = pg.complete_operation(PgProcessType::StartDb, &spawn_failed);
    assert_eq!(r, Err(PgEmbedError::PgStartFailure));
    assert_eq!(pg.server_status, PgServerStatus::Failure);
}

#[test]
fn nonzero_exit_is_the_operation_error() {
    let mut pg = controller(false);
    pg.begin_operation(PgProcessType::InitDb);
    let r = pg.complete_operation(PgProcessType::InitDb, &ProcessOutcome::Exited { code: 1 });
    assert_eq!(r, Err(PgEmbedError::PgInitFailure));
    assert_eq!(pg.server_status, PgServerStatus::Failure);
}

#[test]
fn timeout_is_reported_as_a_timeout_for_the_operation() {
    let r = outcome_result(&PgProcessType::StartDb, &ProcessOutcome::TimedOut);
    assert_eq!(
        r,
        Err(PgEmbedError::PgError {
            source: "timeout".to_string(),
            message: "start command timed out".to_string(),
        })
    );
}

#[test]
fn signal_and_spawn_failure_map_to_operation_errors() {
    let r = outcome_result(&PgProcessType::StopDb, &ProcessOutcome::Signaled);
    assert_eq!(r, Err(PgEmbedError::PgStopFailure));
    let spawn_failed = ProcessOutcome::SpawnFailed { e: "permission denied".to_string() };
    let r = outcome_result(&PgProcessType::InitDb, &spawn_failed);
    assert_eq!(r, Err(PgEmbedError::PgInitFailure));
}

#[test]
fn initdb_command_is_exact() {
    let mut pg = controller(false);
    let cmd = pg.begin_operation(PgProcessType::InitDb);
    assert_eq!(cmd.exe, "data/postgres/bin/initdb");
    assert_eq!(
        cmd.args,
        vec![
            "-D".to_string(),
            "data/db".to_string(),
            "--pwfile".to_string(),
            "data/db.pwfile".to_string(),
            "-A".to_string(),
            "password".to_string(),
        ]
    );
    assert_eq!(cmd.timeout_ms, Some(1000));
}

#[test]
fn start_and_stop_commands_are_exact() {
    let mut pg = controller(false);
    let start = pg.begin_operation(PgProcessType::StartDb);
    assert_eq!(start.exe, "data/postgres/bin/pg_ctl");
    assert_eq!(
        start.args,
        vec![
            "start".to_string(),
            "-w".to_string(),
            "-D".to_string(),
            "data/db".to_string(),
        ]
    );
    let stop = pg.begin_operation(PgProcessType::StopDb);
    assert_eq!(stop.exe, "data/postgres/bin/pg_ctl");
    assert_eq!(
        stop.args,
        vec![
            "stop".to_string(),
            "-w".to_string(),
            "-D".to_string(),
            "data/db".to_string(),
        ]
    );
}

#[test]
fn full_connection_uri_is_deterministic() {
    let pg = controller(false);
    assert_eq!(
        pg.full_connection_uri(&"mydb".to_string()),
        "postgres://postgres:pw@localhost:5432/mydb"
    );
}

#[test]
fn initialization_skipped_when_marker_present() {
    let mut pg = controller(false);
    let mut fs = FsSnapshot::empty();
    assert!(pg.initialization_needed(&fs));
    fs.record("data/db/PG_VERSION".to_string());
    assert!(!pg.initialization_needed(&fs));
    pg.skip_initialization();
    assert_eq!(pg.server_status, PgServerStatus::Initialized);
}

#[test]
fn database_statements_are_exact() {
    let name = "mydb".to_string();
    assert_eq!(PgEmbed::create_database_statement(&name), "CREATE DATABASE mydb");
    assert_eq!(PgEmbed::drop_database_statement(&name), "DROP DATABASE mydb");
    assert_eq!(
        PgEmbed::database_exists_statement(&name),
        "SELECT datname FROM pg_database WHERE datname = 'mydb'"
    );
}

#[test]
fn cleanup_removes_nothing_when_persistent() {
    let pg = controller(true);
    assert!(pg.cleanup_targets().is_empty());
}

#[test]
fn cleanup_targets_database_and_password_file() {
    let pg = controller(false);
    assert_eq!(
        pg.cleanup_targets(),
        vec!["data/db".to_string(), "data/db.pwfile".to_string()]
    );
}
