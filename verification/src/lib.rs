//! Run a PostgreSQL database locally as part of another program: acquire the
//! platform binaries once per cache location, unpack the distribution archive,
//! and drive the engine's own tooling (initdb, pg_ctl) through a checked
//! lifecycle state machine.

pub mod command_executor;
pub mod pg_access;
pub mod pg_enums;
pub mod pg_errors;
pub mod pg_fetch;
pub mod pg_fs;
pub mod pg_unpack;
pub mod postgres;
