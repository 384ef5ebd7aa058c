use pg_embed::pg_access::{PgAccess, PgAcquisitionRegistry};
use pg_embed::pg_enums::{Architecture, OperationSystem, PgAcquisitionStatus};
use pg_embed::pg_errors::PgEmbedError;
use pg_embed::pg_fetch::PgFetchSettings;
use pg_embed::pg_fs::FsSnapshot;

fn fetch_settings() -> PgFetchSettings {
    PgFetchSettings {
        host: "https://repo1.maven.org".to_string(),
        operating_system: OperationSystem::Linux,
        architecture: Architecture::Amd64,
        version: "13.2.0".to_string(),
    }
}

fn access() -> PgAccess {
    PgAccess::new(
        &fetch_settings(),
        &"data/db".to_string(),
        Some(&"data/postgres".to_string()),
    )
    .unwrap()
}

#[test]
fn platform_joins_os_and_architecture() {
    assert_eq!(fetch_settings().platform(), "linux-amd64");
}

#[test]
fn new_derives_every_path() {
    let a = access();
    assert_eq!(a.cache_dir, "data/postgres");
    assert_eq!(a.database_dir, "data/db");
    assert_eq!(a.pg_ctl_exe, "data/postgres/bin/pg_ctl");
    assert_eq!(a.init_db_exe, "data/postgres/bin/initdb");
    assert_eq!(a.pw_file_path, "data/db.pwfile");
    assert_eq!(a.zip_file_path, "data/postgres/linux-amd64-13.2.0.zip");
    assert_eq!(a.pg_version_file, "data/db/PG_VERSION");
}

#[test]
fn registry_starts_undefined() {
    let reg = PgAcquisitionRegistry::new();
    let a = access();
    assert_eq!(a.acquisition_status(&reg), PgAcquisitionStatus::Undefined);
}

#[test]
fn registry_records_and_overwrites_status() {
    let mut reg = PgAcquisitionRegistry::new();
    let dir = "data/postgres".to_string();
    let other = "elsewhere".to_string();
    reg.set_status(&dir, PgAcquisitionStatus::InProgress);
    assert_eq!(reg.status_of(&dir), PgAcquisitionStatus::InProgress);
    assert_eq!(reg.status_of(&other), PgAcquisitionStatus::Undefined);
    reg.set_status(&dir, PgAcquisitionStatus::Finished);
    assert_eq!(reg.status_of(&dir), PgAcquisitionStatus::Finished);
    assert_eq!(reg.status_of(&other), PgAcquisitionStatus::Undefined);
}

#[test]
fn executables_cached_follows_the_snapshot() {
    let a = access();
    let mut fs = FsSnapshot::empty();
    assert!(!a.pg_executables_cached(&fs));
    fs.record("data/postgres/bin/initdb".to_string());
    assert!(a.pg_executables_cached(&fs));
}

#[test]
fn db_files_exist_needs_executables_and_marker() {
    let a = access();
    let mut fs = FsSnapshot::empty();
    assert!(!a.db_files_exist(&fs));
    fs.record("data/postgres/bin/initdb".to_string());
    assert!(!a.db_files_exist(&fs));
    fs.record("data/db/PG_VERSION".to_string());
    assert!(a.db_files_exist(&fs));
}

#[test]
fn version_file_checked_inside_the_directory() {
    let mut fs = FsSnapshot::empty();
    let dir = "data/db".to_string();
    assert!(!PgAccess::pg_version_file_exists(&dir, &fs));
    fs.record("data/db/PG_VERSION".to_string());
    assert!(PgAccess::pg_version_file_exists(&dir, &fs));
}

#[test]
fn acquisition_marks_in_progress_and_finished() {
    let a = access();
    let mut reg = PgAcquisitionRegistry::new();
    let empty = FsSnapshot::empty();
    let fetch_needed = a.begin_acquisition(&mut reg, &empty);
    assert!(fetch_needed);
    assert_eq!(a.acquisition_status(&reg), PgAcquisitionStatus::InProgress);
    let mut after = FsSnapshot::empty();
    after.record("data/postgres/bin/initdb".to_string());
    assert!(a.finish_acquisition(&mut reg, &after).is_ok());
    assert_eq!(a.acquisition_status(&reg), PgAcquisitionStatus::Finished);
}

#[test]
fn acquisition_success_means_marker_present() {
    let a = access();
    let mut reg = PgAcquisitionRegistry::new();
    let empty = FsSnapshot::empty();
    a.begin_acquisition(&mut reg, &empty);
    let r = a.finish_acquisition(&mut reg, &empty);
    assert_eq!(r, Err(PgEmbedError::InvalidPgPackage));
    assert_eq!(a.acquisition_status(&reg), PgAcquisitionStatus::InProgress);
}

#[test]
fn repeated_acquisition_fetches_nothing() {
    let a = access();
    let mut reg = PgAcquisitionRegistry::new();
    let mut fs = FsSnapshot::empty();
    fs.record("data/postgres/bin/initdb".to_string());
    assert!(!a.begin_acquisition(&mut reg, &fs));
    assert!(!a.begin_acquisition(&mut reg, &fs));
    assert_eq!(a.acquisition_status(&reg), PgAcquisitionStatus::Undefined);
}

#[test]
fn default_cache_dir_joins_root_and_subpath() {
    let base = "/home/someone/.cache".to_string();
    assert_eq!(
        PgAccess::default_cache_dir(&base, &fetch_settings()),
        "/home/someone/.cache/pg-embed/linux/amd64/13.2.0"
    );
}

#[test]
fn default_cache_dir_keeps_alpine_apart() {
    let settings = PgFetchSettings {
        host: "https://repo1.maven.org".to_string(),
        operating_system: OperationSystem::AlpineLinux,
        architecture: Architecture::Arm64v8,
        version: "14.1.0".to_string(),
    };
    let base = "/var/cache".to_string();
    assert_eq!(
        PgAccess::default_cache_dir(&base, &settings),
        "/var/cache/pg-embed/arch_linux/arm64v8/14.1.0"
    );
}

#[test]
fn new_without_cache_dir_uses_the_system_cache() {
    match PgAccess::new(&fetch_settings(), &"data/db".to_string(), None) {
        Ok(a) => {
            assert!(a.cache_dir.ends_with("/pg-embed/linux/amd64/13.2.0"));
            assert_eq!(a.init_db_exe, format!("{}/bin/initdb", a.cache_dir));
        }
        Err(e) => assert_eq!(e, PgEmbedError::NoSystemCacheDirectory),
    }
}
