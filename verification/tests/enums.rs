use pg_embed::pg_enums::{
    Architecture, OperationSystem, PgAcquisitionStatus, PgAuthMethod, PgProcessType,
    PgServerStatus,
};
use pg_embed::pg_errors::PgEmbedError;

#[test]
fn process_type_status_entry() {
    assert_eq!(PgProcessType::InitDb.status_entry(), PgServerStatus::Initializing);
    assert_eq!(PgProcessType::StartDb.status_entry(), PgServerStatus::Starting);
    assert_eq!(PgProcessType::StopDb.status_entry(), PgServerStatus::Stopping);
}

#[test]
fn process_type_status_exit() {
    assert_eq!(PgProcessType::InitDb.status_exit(), PgServerStatus::Initialized);
    assert_eq!(PgProcessType::StartDb.status_exit(), PgServerStatus::Started);
    assert_eq!(PgProcessType::StopDb.status_exit(), PgServerStatus::Stopped);
}

#[test]
fn process_type_error_type() {
    assert_eq!(PgProcessType::InitDb.error_type(), PgEmbedError::PgInitFailure);
    assert_eq!(PgProcessType::StartDb.error_type(), PgEmbedError::PgStartFailure);
    assert_eq!(PgProcessType::StopDb.error_type(), PgEmbedError::PgStopFailure);
}

#[test]
fn process_type_names() {
    assert_eq!(PgProcessType::InitDb.name(), "initdb");
    assert_eq!(PgProcessType::StartDb.name(), "start");
    assert_eq!(PgProcessType::StopDb.name(), "stop");
}

#[test]
fn wrap_error_keeps_cause_and_message() {
    let e = PgProcessType::InitDb.wrap_error("cause".to_string(), "message".to_string());
    assert_eq!(
        e,
        PgEmbedError::PgError { source: "cause".to_string(), message: "message".to_string() }
    );
}

#[test]
fn auth_method_names() {
    assert_eq!(PgAuthMethod::Plain.name(), "password");
    assert_eq!(PgAuthMethod::MD5.name(), "md5");
    assert_eq!(PgAuthMethod::ScramSha256.name(), "scram-sha-256");
}

#[test]
fn operation_system_names() {
    assert_eq!(OperationSystem::Darwin.name(), "darwin");
    assert_eq!(OperationSystem::Windows.name(), "windows");
    assert_eq!(OperationSystem::Linux.name(), "linux");
    assert_eq!(OperationSystem::AlpineLinux.name(), "linux");
}

#[test]
fn operation_system_cache_segments() {
    assert_eq!(OperationSystem::Darwin.cache_segment(), "darwin");
    assert_eq!(OperationSystem::Windows.cache_segment(), "windows");
    assert_eq!(OperationSystem::Linux.cache_segment(), "linux");
    assert_eq!(OperationSystem::AlpineLinux.cache_segment(), "arch_linux");
}

#[test]
fn architecture_names() {
    assert_eq!(Architecture::Amd64.name(), "amd64");
    assert_eq!(Architecture::I386.name(), "i386");
    assert_eq!(Architecture::Arm32v6.name(), "arm32v6");
    assert_eq!(Architecture::Arm32v7.name(), "arm32v7");
    assert_eq!(Architecture::Arm64v8.name(), "arm64v8");
    assert_eq!(Architecture::Ppc64le.name(), "ppc64le");
}

#[test]
fn acquisition_status_is_plain_data() {
    assert_eq!(PgAcquisitionStatus::InProgress, PgAcquisitionStatus::InProgress);
    assert_ne!(PgAcquisitionStatus::InProgress, PgAcquisitionStatus::Finished);
    assert_ne!(PgAcquisitionStatus::Finished, PgAcquisitionStatus::Undefined);
}
