//! Paths to the cached PostgreSQL executables and to the database files, and
//! the process-wide registry that tracks which cache locations are being
//! acquired. Path construction and the acquisition decisions are verified;
//! the filesystem work they direct is a caller's.

use vstd::prelude::*;
use vstd::string::StringExecFns;
use crate::pg_enums::PgAcquisitionStatus;
use crate::pg_errors::PgEmbedError;
use crate::pg_fetch::PgFetchSettings;
use crate::pg_fs::FsSnapshot;

verus! {

/// Join two path fragments into one string.
fn join2(a: &str, b: &str) -> (r: String)
    ensures
        r@ == a@ + b@,
{
    let mut s = String::from_str(a);
    s.append(b);
    s
}

/// The registry of cache locations and their acquisition status. One such
/// registry is shared, behind a lock, by every controller of one process, so
/// that two controllers aiming at the same cache location can see each
/// other's acquisition.
pub struct PgAcquisitionRegistry {
    pub entries: Vec<(String, PgAcquisitionStatus)>,
}

impl PgAcquisitionRegistry {
    /// The status recorded for `key`: the most recent entry wins, and a key
    /// never recorded is `Undefined`.
    pub open spec fn spec_status_rec(
        entries: Seq<(String, PgAcquisitionStatus)>,
        key: Seq<char>,
    ) -> PgAcquisitionStatus
        decreases entries.len(),
    {
        if entries.len() == 0 {
            PgAcquisitionStatus::Undefined
        } else if entries[0].0@ == key {
            entries[0].1
        } else {
            Self::spec_status_rec(entries.drop_first(), key)
        }
    }

    pub open spec fn status_view(self, key: Seq<char>) -> PgAcquisitionStatus {
        Self::spec_status_rec(self.entries@, key)
    }

    /// A registry in which no location has been recorded.
    pub fn new() -> (r: PgAcquisitionRegistry)
        ensures
            forall|k: Seq<char>| r.status_view(k) == PgAcquisitionStatus::Undefined,
    {
        PgAcquisitionRegistry { entries: Vec::new() }
    }

    /// Look the status of `dir` up; `Undefined` when absent.
    pub fn status_of(&self, dir: &String) -> (r: PgAcquisitionStatus)
        ensures
            r == self.status_view(dir@),
    {
        let mut i: usize = 0;
        proof {
            assert(self.entries@.skip(0) =~= self.entries@);
        }
        while i < self.entries.len()
            invariant
                i <= self.entries@.len(),
                Self::spec_status_rec(self.entries@, dir@) == Self::spec_status_rec(
                    self.entries@.skip(i as int),
                    dir@,
                ),
            decreases self.entries@.len() - i,
        {
            proof {
                assert(self.entries@.skip(i as int)[0] == self.entries@[i as int]);
            }
            if self.entries[i].0 == *dir {
                return self.entries[i].1;
            }
            proof {
                assert(self.entries@.skip(i as int).drop_first() =~= self.entries@.skip(
                    i as int + 1,
                ));
            }
            i += 1;
        }
        PgAcquisitionStatus::Undefined
    }

    /// Record `status` for `dir`, leaving every other location as it was.
    pub fn set_status(&mut self, dir: &String, status: PgAcquisitionStatus)
        ensures
            final(self).status_view(dir@) == status,
            forall|k: Seq<char>|
                k != dir@ ==> final(self).status_view(k) == old(self).status_view(k),
    {
        let ghost old_entries = self.entries@;
        self.entries.insert(0, (dir.clone(), status));
        proof {
            assert(self.entries@.drop_first() =~= old_entries);
        }
    }
}

/// Access to pg_ctl, initdb, the database directory and the cache directory.
/// Every path is fixed when the value is built and never changes afterwards.
pub struct PgAccess {
    /// Cache directory path
    pub cache_dir: String,
    /// Database directory path
    pub database_dir: String,
    /// PostgreSQL pg_ctl executable path
    pub pg_ctl_exe: String,
    /// PostgreSQL initdb executable path
    pub init_db_exe: String,
    /// Password file path
    pub pw_file_path: String,
    /// PostgreSQL binaries zip file path
    pub zip_file_path: String,
    /// PostgreSQL version marker file within the database directory; its
    /// presence signals completed initialization
    pub pg_version_file: String,
}

/// Relies on dirs::cache_dir: the platform's user cache directory, if the
/// system reports one. The result depends on the environment, so nothing is
/// assumed of its value.
#[verifier::external_body]
fn system_cache_dir() -> (r: Option<String>)
{
    dirs::cache_dir().map(|p| p.to_string_lossy().into_owned())
}

impl PgAccess {
    /// How each derived path relates to the two directories.
    pub open spec fn wf(self) -> bool {
        &&& self.pg_ctl_exe@ == self.cache_dir@ + "/bin/pg_ctl"@
        &&& self.init_db_exe@ == self.cache_dir@ + "/bin/initdb"@
        &&& self.pw_file_path@ == self.database_dir@ + ".pwfile"@
        &&& self.pg_version_file@ == self.database_dir@ + "/PG_VERSION"@
    }

    /// The fixed subpath, under the system cache directory, that keys one
    /// platform/architecture/version combination.
    pub open spec fn spec_cache_subpath(fetch_settings: PgFetchSettings) -> Seq<char> {
        "pg-embed/"@ + fetch_settings.operating_system.spec_cache_segment() + "/"@
            + fetch_settings.architecture.spec_name() + "/"@ + fetch_settings.version@
    }

    /// The name of the distribution package within the cache directory.
    pub open spec fn spec_zip_file_name(fetch_settings: PgFetchSettings) -> Seq<char> {
        fetch_settings.spec_platform() + "-"@ + fetch_settings.version@ + ".zip"@
    }

    /// The default cache location under a given cache root: the root plus
    /// the fixed subpath keying this platform/architecture/version
    /// combination.
    pub fn default_cache_dir(base: &String, fetch_settings: &PgFetchSettings) -> (r: String)
        ensures
            r@ == base@ + "/"@ + Self::spec_cache_subpath(*fetch_settings),
    {
        let mut p = base.clone();
        p.append("/pg-embed/");
        p.append(fetch_settings.operating_system.cache_segment());
        p.append("/");
        p.append(fetch_settings.architecture.name());
        p.append("/");
        p.append(fetch_settings.version.as_str());
        proof {
            assert(p@ =~= base@ + "/"@ + Self::spec_cache_subpath(*fetch_settings)) by {
                reveal_strlit("/pg-embed/");
                reveal_strlit("/");
                reveal_strlit("pg-embed/");
            }
        }
        p
    }

    /// Create a new instance.
    ///
    /// Derives every path from the database directory and the cache
    /// directory; when no cache directory is given, the default cache
    /// location under the system cache directory is derived by
    /// `default_cache_dir`, and the call fails with
    /// `NoSystemCacheDirectory` when the system reports none. Creating the
    /// directories on disk is the caller's work.
    pub fn new(
        fetch_settings: &PgFetchSettings,
        database_dir: &String,
        cache_dir: Option<&String>,
    ) -> (r: Result<PgAccess, PgEmbedError>)
        ensures
            r matches Ok(a) ==> {
                &&& a.wf()
                &&& a.database_dir@ == database_dir@
                &&& a.zip_file_path@ == a.cache_dir@ + "/"@ + Self::spec_zip_file_name(
                    *fetch_settings,
                )
            },
            cache_dir matches Some(d) ==> r matches Ok(a) && a.cache_dir@ == d@,
            r is Err ==> cache_dir is None && (r matches Err(e) && e
                == PgEmbedError::NoSystemCacheDirectory),
            (cache_dir is None && r is Ok) ==> exists|base: Seq<char>|
                r->Ok_0.cache_dir@ == base + "/"@ + Self::spec_cache_subpath(*fetch_settings),
    {
        let cache_dir: String = match cache_dir {
            Some(d) => d.clone(),
            None => {
                match system_cache_dir() {
                    None => {
                        return Err(PgEmbedError::NoSystemCacheDirectory);
                    },
                    Some(base) => Self::default_cache_dir(&base, fetch_settings),
                }
            },
        };
        let pg_ctl = join2(cache_dir.as_str(), "/bin/pg_ctl");
        let init_db = join2(cache_dir.as_str(), "/bin/initdb");
        let mut zip_file_path = join2(cache_dir.as_str(), "/");
        zip_file_path.append(fetch_settings.platform().as_str());
        zip_file_path.append("-");
        zip_file_path.append(fetch_settings.version.as_str());
        zip_file_path.append(".zip");
        let pw_file = join2(database_dir.as_str(), ".pwfile");
        let pg_version_file = join2(database_dir.as_str(), "/PG_VERSION");
        let access = PgAccess {
            cache_dir,
            database_dir: database_dir.clone(),
            pg_ctl_exe: pg_ctl,
            init_db_exe: init_db,
            pw_file_path: pw_file,
            zip_file_path,
            pg_version_file,
        };
        proof {
            assert(access.zip_file_path@ =~= access.cache_dir@ + "/"@ + Self::spec_zip_file_name(
                *fetch_settings,
            ));
        }
        Ok(access)
    }

    /// Whether a fetch is needed: the executables are not yet on disk.
    pub open spec fn spec_must_fetch(self, fs: FsSnapshot) -> bool {
        !fs.has(self.init_db_exe@)
    }

    /// Check if the postgresql executables are already cached, as witnessed
    /// by the marker executable `initdb` being present in the snapshot.
    pub fn pg_executables_cached(&self, fs: &FsSnapshot) -> (r: bool)
        ensures
            r == fs.has(self.init_db_exe@),
    {
        fs.contains(&self.init_db_exe)
    }

    /// Check if the database files exist: the executables are cached and the
    /// version marker file is present.
    pub fn db_files_exist(&self, fs: &FsSnapshot) -> (r: bool)
        ensures
            r == (fs.has(self.init_db_exe@) && fs.has(self.pg_version_file@)),
    {
        self.pg_executables_cached(fs) && fs.contains(&self.pg_version_file)
    }

    /// Check if the database version marker file exists within `db_dir`.
    pub fn pg_version_file_exists(db_dir: &String, fs: &FsSnapshot) -> (r: bool)
        ensures
            r == fs.has(db_dir@ + "/PG_VERSION"@),
    {
        let marker = join2(db_dir.as_str(), "/PG_VERSION");
        fs.contains(&marker)
    }

    /// Check this cache location's acquisition status.
    pub fn acquisition_status(&self, reg: &PgAcquisitionRegistry) -> (r: PgAcquisitionStatus)
        ensures
            r == reg.status_view(self.cache_dir@),
    {
        reg.status_of(&self.cache_dir)
    }

    /// Decide whether an acquisition must run. When the executables are
    /// already cached nothing happens and no fetch is owed; otherwise the
    /// location is marked `InProgress` and the caller must fetch and unpack.
    ///
    /// Deduplication is best-effort, as the registry only makes statuses
    /// visible: a caller is expected to hold the registry's lock across this
    /// decision but not across the slow fetch, so two callers that both
    /// observe an empty cache before either marks it may fetch redundantly.
    /// The later unpack merely overwrites the earlier one.
    pub fn begin_acquisition(
        &self,
        reg: &mut PgAcquisitionRegistry,
        fs: &FsSnapshot,
    ) -> (fetch_needed: bool)
        ensures
            fetch_needed == self.spec_must_fetch(*fs),
            !fetch_needed ==> *final(reg) == *old(reg),
            fetch_needed ==> final(reg).status_view(self.cache_dir@) == PgAcquisitionStatus::InProgress,
            fetch_needed ==> forall|k: Seq<char>|
                k != self.cache_dir@ ==> final(reg).status_view(k) == old(reg).status_view(k),
    {
        if self.pg_executables_cached(fs) {
            false
        } else {
            reg.set_status(&self.cache_dir, PgAcquisitionStatus::InProgress);
            true
        }
    }

    /// Close an acquisition: succeeds, and marks the location `Finished`,
    /// exactly when the marker executable is present in the snapshot taken
    /// after unpacking; otherwise the package did not hold the executables
    /// and the registry is left as it was.
    pub fn finish_acquisition(
        &self,
        reg: &mut PgAcquisitionRegistry,
        fs_after: &FsSnapshot,
    ) -> (r: Result<(), PgEmbedError>)
        ensures
            r is Ok <==> fs_after.has(self.init_db_exe@),
            r matches Err(e) ==> e == PgEmbedError::InvalidPgPackage && *final(reg) == *old(reg),
            r is Ok ==> final(reg).status_view(self.cache_dir@) == PgAcquisitionStatus::Finished,
            r is Ok ==> forall|k: Seq<char>|
                k != self.cache_dir@ ==> final(reg).status_view(k) == old(reg).status_view(k),
    {
        if self.pg_executables_cached(fs_after) {
            reg.set_status(&self.cache_dir, PgAcquisitionStatus::Finished);
            Ok(())
        } else {
            Err(PgEmbedError::InvalidPgPackage)
        }
    }
}

/// Repeated acquisition is free: on a snapshot in which the marker executable
/// is already present, `begin_acquisition` reports that no fetch is needed,
/// and leaves the registry untouched — so any number of repeated calls over
/// that snapshot fetch nothing.
pub proof fn lemma_acquisition_fast_path(a: PgAccess, fs: FsSnapshot)
    requires
        fs.has(a.init_db_exe@),
    ensures
        !a.spec_must_fetch(fs),
{
}

} // verus!
