//! The lifecycle controller: one instance owns the server status and the
//! instance paths of one embedded PostgreSQL database, hands out the exact
//! command each operation must run, and settles the status from the
//! command's outcome. Spawning the commands is a caller's work.

use vstd::prelude::*;
use vstd::string::StringExecFns;
use crate::command_executor::{
    spec_outcome_ok, spec_outcome_verdict, PgCommand, ProcessOutcome,
};
use crate::command_executor::outcome_result;
use crate::pg_access::PgAccess;
use crate::pg_enums::{PgAuthMethod, PgProcessType, PgServerStatus};
use crate::pg_errors::PgEmbedError;
use crate::pg_fs::FsSnapshot;

verus! {

/// The views of a list of strings.
pub open spec fn string_views(v: Seq<String>) -> Seq<Seq<char>> {
    v.map_values(|s: String| s@)
}

/// The decimal digit for one value below ten.
pub open spec fn spec_dec_digit(d: nat) -> char {
    if d == 0 {
        '0'
    } else if d == 1 {
        '1'
    } else if d == 2 {
        '2'
    } else if d == 3 {
        '3'
    } else if d == 4 {
        '4'
    } else if d == 5 {
        '5'
    } else if d == 6 {
        '6'
    } else if d == 7 {
        '7'
    } else if d == 8 {
        '8'
    } else {
        '9'
    }
}

/// The decimal representation of a number, most significant digit first.
pub open spec fn spec_dec(n: nat) -> Seq<char>
    decreases n,
{
    if n < 10 {
        seq![spec_dec_digit(n)]
    } else {
        spec_dec(n / 10) + seq![spec_dec_digit(n % 10)]
    }
}

/// One decimal digit as a string.
fn dec_digit_str(d: u16) -> (r: &'static str)
    requires
        d < 10,
    ensures
        r@ == seq![spec_dec_digit(d as nat)],
{
    proof {
        reveal_strlit("0");
        reveal_strlit("1");
        reveal_strlit("2");
        reveal_strlit("3");
        reveal_strlit("4");
        reveal_strlit("5");
        reveal_strlit("6");
        reveal_strlit("7");
        reveal_strlit("8");
        reveal_strlit("9");
        assert("0"@ =~= seq!['0']);
        assert("1"@ =~= seq!['1']);
        assert("2"@ =~= seq!['2']);
        assert("3"@ =~= seq!['3']);
        assert("4"@ =~= seq!['4']);
        assert("5"@ =~= seq!['5']);
        assert("6"@ =~= seq!['6']);
        assert("7"@ =~= seq!['7']);
        assert("8"@ =~= seq!['8']);
        assert("9"@ =~= seq!['9']);
    }
    match d {
        0 => "0",
        1 => "1",
        2 => "2",
        3 => "3",
        4 => "4",
        5 => "5",
        6 => "6",
        7 => "7",
        8 => "8",
        _ => "9",
    }
}

/// A number in decimal.
fn dec_string(n: u16) -> (r: String)
    ensures
        r@ == spec_dec(n as nat),
    decreases n,
{
    if n < 10 {
        String::from_str(dec_digit_str(n))
    } else {
        let mut s = dec_string(n / 10);
        s.append(dec_digit_str(n % 10));
        s
    }
}

/// The settings of one database instance.
pub struct PgSettings {
    /// Database directory path
    pub database_dir: String,
    /// Port the server listens on
    pub port: u16,
    /// Superuser name
    pub user: String,
    /// Superuser password
    pub password: String,
    /// Authentication method written into the cluster
    pub auth_method: PgAuthMethod,
    /// Keep the database files on disposal; otherwise they are removed
    pub persistent: bool,
    /// Bound on each command's running time, in milliseconds
    pub timeout_ms: Option<u64>,
    /// Directory of migration scripts, run in filename order
    pub migration_dir: Option<String>,
}

/// One embedded PostgreSQL instance: settings, paths, and the server status
/// only this controller mutates.
pub struct PgEmbed {
    /// Settings of the instance
    pub pg_settings: PgSettings,
    /// Paths to executables, database and cache
    pub pg_access: PgAccess,
    /// Current server status
    pub server_status: PgServerStatus,
}

/// The status an operation leaves behind: its exit status on a clean exit,
/// `Failure` on anything else.
pub open spec fn spec_post_status(
    process_type: PgProcessType,
    outcome: ProcessOutcome,
) -> PgServerStatus {
    if spec_outcome_ok(outcome) {
        process_type.spec_status_exit()
    } else {
        PgServerStatus::Failure
    }
}

/// The connection uri of one logical database on a running instance.
pub open spec fn spec_connection_uri(settings: PgSettings, db_name: Seq<char>) -> Seq<char> {
    "postgres://"@ + settings.user@ + ":"@ + settings.password@ + "@localhost:"@ + spec_dec(
        settings.port as nat,
    ) + "/"@ + db_name
}

impl PgEmbed {
    /// A new controller, not yet initialized.
    pub fn new(pg_settings: PgSettings, pg_access: PgAccess) -> (r: PgEmbed)
        ensures
            r.pg_settings == pg_settings,
            r.pg_access == pg_access,
            r.server_status == PgServerStatus::Uninitialized,
    {
        PgEmbed { pg_settings, pg_access, server_status: PgServerStatus::Uninitialized }
    }

    /// The executable each operation runs: initdb for initialization, pg_ctl
    /// for start and stop.
    pub open spec fn spec_command_exe(self, process_type: PgProcessType) -> Seq<char> {
        match process_type {
            PgProcessType::InitDb => self.pg_access.init_db_exe@,
            PgProcessType::StartDb => self.pg_access.pg_ctl_exe@,
            PgProcessType::StopDb => self.pg_access.pg_ctl_exe@,
        }
    }

    /// The arguments each operation runs with: initdb gets the data
    /// directory, the password file and the authentication method; pg_ctl
    /// gets its subcommand, a wait flag and the data directory.
    pub open spec fn spec_command_args(self, process_type: PgProcessType) -> Seq<Seq<char>> {
        match process_type {
            PgProcessType::InitDb => seq![
                "-D"@,
                self.pg_access.database_dir@,
                "--pwfile"@,
                self.pg_access.pw_file_path@,
                "-A"@,
                self.pg_settings.auth_method.spec_name(),
            ],
            PgProcessType::StartDb => seq![
                "start"@,
                "-w"@,
                "-D"@,
                self.pg_access.database_dir@,
            ],
            PgProcessType::StopDb => seq!["stop"@, "-w"@, "-D"@, self.pg_access.database_dir@],
        }
    }

    /// Enter an operation: the status moves to the operation's entry status,
    /// and the exact command to spawn is handed out.
    pub fn begin_operation(&mut self, process_type: PgProcessType) -> (r: PgCommand)
        ensures
            final(self).server_status == process_type.spec_status_entry(),
            final(self).pg_settings == old(self).pg_settings,
            final(self).pg_access == old(self).pg_access,
            r.exe@ == old(self).spec_command_exe(process_type),
            string_views(r.args@) == old(self).spec_command_args(process_type),
            r.timeout_ms == old(self).pg_settings.timeout_ms,
    {
        self.server_status = process_type.status_entry();
        let exe = match process_type {
            PgProcessType::InitDb => self.pg_access.init_db_exe.clone(),
            PgProcessType::StartDb => self.pg_access.pg_ctl_exe.clone(),
            PgProcessType::StopDb => self.pg_access.pg_ctl_exe.clone(),
        };
        let mut args: Vec<String> = Vec::new();
        match process_type {
            PgProcessType::InitDb => {
                args.push(String::from_str("-D"));
                args.push(self.pg_access.database_dir.clone());
                args.push(String::from_str("--pwfile"));
                args.push(self.pg_access.pw_file_path.clone());
                args.push(String::from_str("-A"));
                args.push(String::from_str(self.pg_settings.auth_method.name()));
            },
            PgProcessType::StartDb => {
                args.push(String::from_str("start"));
                args.push(String::from_str("-w"));
                args.push(String::from_str("-D"));
                args.push(self.pg_access.database_dir.clone());
            },
            PgProcessType::StopDb => {
                args.push(String::from_str("stop"));
                args.push(String::from_str("-w"));
                args.push(String::from_str("-D"));
                args.push(self.pg_access.database_dir.clone());
            },
        }
        proof {
            assert(string_views(args@) =~= old(self).spec_command_args(process_type));
        }
        PgCommand { exe, args, timeout_ms: self.pg_settings.timeout_ms }
    }

    /// Settle an operation from its command's outcome: a clean exit moves
    /// the status to the operation's exit status and succeeds; anything else
    /// moves it to `Failure` and reports the operation's error.
    pub fn complete_operation(&mut self, process_type: PgProcessType, outcome: &ProcessOutcome) -> (r:
        Result<(), PgEmbedError>)
        ensures
            r is Ok <==> spec_outcome_ok(*outcome),
            spec_outcome_verdict(process_type, *outcome, r),
            final(self).server_status == spec_post_status(process_type, *outcome),
            final(self).pg_settings == old(self).pg_settings,
            final(self).pg_access == old(self).pg_access,
    {
        let r = outcome_result(&process_type, outcome);
        match r {
            Ok(_) => {
                self.server_status = process_type.status_exit();
            },
            Err(_) => {
                self.server_status = PgServerStatus::Failure;
            },
        }
        r
    }

    /// Whether initialization must still run: no version marker is present.
    pub fn initialization_needed(&self, fs: &FsSnapshot) -> (r: bool)
        ensures
            r == !fs.has(self.pg_access.pg_version_file@),
    {
        !fs.contains(&self.pg_access.pg_version_file)
    }

    /// Adopt a database initialized by an earlier run: a caller that found
    /// the version marker already present skips initialization, and the
    /// instance counts as initialized at once.
    pub fn skip_initialization(&mut self)
        ensures
            final(self).server_status == PgServerStatus::Initialized,
            final(self).pg_settings == old(self).pg_settings,
            final(self).pg_access == old(self).pg_access,
    {
        self.server_status = PgServerStatus::Initialized;
    }

    /// The full connection uri of one logical database on this instance.
    pub fn full_connection_uri(&self, db_name: &String) -> (r: String)
        ensures
            r@ == spec_connection_uri(self.pg_settings, db_name@),
    {
        let mut s = String::from_str("postgres://");
        s.append(self.pg_settings.user.as_str());
        s.append(":");
        s.append(self.pg_settings.password.as_str());
        s.append("@localhost:");
        let port = dec_string(self.pg_settings.port);
        s.append(port.as_str());
        s.append("/");
        s.append(db_name.as_str());
        proof {
            assert(s@ =~= spec_connection_uri(self.pg_settings, db_name@));
        }
        s
    }

    /// The statement that creates one logical database.
    pub fn create_database_statement(db_name: &String) -> (r: String)
        ensures
            r@ == "CREATE DATABASE "@ + db_name@,
    {
        let mut s = String::from_str("CREATE DATABASE ");
        s.append(db_name.as_str());
        s
    }

    /// The statement that drops one logical database.
    pub fn drop_database_statement(db_name: &String) -> (r: String)
        ensures
            r@ == "DROP DATABASE "@ + db_name@,
    {
        let mut s = String::from_str("DROP DATABASE ");
        s.append(db_name.as_str());
        s
    }

    /// The query whose result is non-empty exactly when the database exists.
    pub fn database_exists_statement(db_name: &String) -> (r: String)
        ensures
            r@ == "SELECT datname FROM pg_database WHERE datname = '"@ + db_name@ + "'"@,
    {
        let mut s = String::from_str("SELECT datname FROM pg_database WHERE datname = '");
        s.append(db_name.as_str());
        s.append("'");
        proof {
            assert(s@ =~= "SELECT datname FROM pg_database WHERE datname = '"@ + db_name@
                + "'"@);
        }
        s
    }

    /// The paths a disposal removes: none when the instance is persistent,
    /// otherwise the database directory and the password file, in that
    /// order.
    pub fn cleanup_targets(&self) -> (r: Vec<String>)
        ensures
            self.pg_settings.persistent ==> r@.len() == 0,
            !self.pg_settings.persistent ==> string_views(r@) == seq![
                self.pg_access.database_dir@,
                self.pg_access.pw_file_path@,
            ],
    {
        let mut targets: Vec<String> = Vec::new();
        if !self.pg_settings.persistent {
            targets.push(self.pg_access.database_dir.clone());
            targets.push(self.pg_access.pw_file_path.clone());
            proof {
                assert(string_views(targets@) =~= seq![
                    self.pg_access.database_dir@,
                    self.pg_access.pw_file_path@,
                ]);
            }
        }
        targets
    }
}

/// The lifecycle visits every status in order and skips none: from
/// `Uninitialized`, initializing, starting and stopping — each command
/// exiting cleanly — pass through exactly Uninitialized, Initializing,
/// Initialized, Starting, Started, Stopping, Stopped.
pub proof fn lemma_lifecycle_happy_path(ok: ProcessOutcome)
    requires
        spec_outcome_ok(ok),
    ensures
        seq![
            PgServerStatus::Uninitialized,
            PgProcessType::InitDb.spec_status_entry(),
            spec_post_status(PgProcessType::InitDb, ok),
            PgProcessType::StartDb.spec_status_entry(),
            spec_post_status(PgProcessType::StartDb, ok),
            PgProcessType::StopDb.spec_status_entry(),
            spec_post_status(PgProcessType::StopDb, ok),
        ] =~= seq![
            PgServerStatus::Uninitialized,
            PgServerStatus::Initializing,
            PgServerStatus::Initialized,
            PgServerStatus::Starting,
            PgServerStatus::Started,
            PgServerStatus::Stopping,
            PgServerStatus::Stopped,
        ],
{
}

/// A start whose command does not exit cleanly — as when the executable is
/// missing because setup never ran — never passes silently: the verdict is
/// an error and the status becomes `Failure`.
pub proof fn lemma_start_failure_reported(outcome: ProcessOutcome, r: Result<(), PgEmbedError>)
    requires
        !spec_outcome_ok(outcome),
        spec_outcome_verdict(PgProcessType::StartDb, outcome, r),
    ensures
        r is Err,
        spec_post_status(PgProcessType::StartDb, outcome) == PgServerStatus::Failure,
{
}

} // verus!
