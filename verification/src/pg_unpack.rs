//! Unpack the PostgreSQL binaries package: an outer zip container holding one
//! inner xz-compressed tar member. The pipeline runs over bytes held in
//! memory — select the inner member, decompress it, list the tar's entries —
//! so that every stage's result is pinned by its contract; reading the
//! package from disk and writing the extracted tree back are a caller's work.

use vstd::prelude::*;
use crate::pg_errors::PgEmbedError;

verus! {

/// One member of the outer zip container.
#[derive(Debug)]
pub struct ZipEntry {
    /// Member name, as recorded in the container
    pub name: String,
    /// Member contents
    pub data: Vec<u8>,
}

impl View for ZipEntry {
    type V = (Seq<char>, Seq<u8>);

    open spec fn view(&self) -> (Seq<char>, Seq<u8>) {
        (self.name@, self.data@)
    }
}

/// One entry of the inner tar archive: a relative path, whether it is a
/// directory, its permission bits, and its contents.
#[derive(Debug)]
pub struct TarEntry {
    /// Path of the entry, relative to the extraction directory
    pub path: String,
    /// Whether the entry is a directory
    pub is_dir: bool,
    /// Unix permission bits, so that executables stay executable
    pub mode: u32,
    /// File contents; empty for a directory
    pub data: Vec<u8>,
}

impl View for TarEntry {
    type V = (Seq<char>, bool, u32, Seq<u8>);

    open spec fn view(&self) -> (Seq<char>, bool, u32, Seq<u8>) {
        (self.path@, self.is_dir, self.mode, self.data@)
    }
}

/// What reading a zip container from the given bytes yields: the members in
/// order, each with its name and contents, or nothing when the container is
/// malformed or a member cannot be read.
pub uninterp spec fn zip_entries_of(bytes: Seq<u8>) -> Option<Seq<(Seq<char>, Seq<u8>)>>;

/// What decompressing the given bytes as one xz stream yields, or nothing
/// when the stream is malformed.
pub uninterp spec fn xz_decoded(bytes: Seq<u8>) -> Option<Seq<u8>>;

/// What reading a tar archive from the given bytes yields: the entries in
/// order, or nothing when the archive is malformed.
pub uninterp spec fn tar_entries_of(bytes: Seq<u8>) -> Option<
    Seq<(Seq<char>, bool, u32, Seq<u8>)>,
>;

pub open spec fn zip_entry_views(members: Seq<ZipEntry>) -> Seq<(Seq<char>, Seq<u8>)> {
    members.map_values(|m: ZipEntry| m@)
}

pub open spec fn tar_entry_views(entries: Seq<TarEntry>) -> Seq<(Seq<char>, bool, u32, Seq<u8>)> {
    entries.map_values(|t: TarEntry| t@)
}

/// Relies on zip::ZipArchive (new, len, by_index) over an in-memory reader,
/// with std::io::Read::read_to_end on each member: the members read, a
/// function of the archive bytes alone, are handed out as plain values.
#[verifier::external_body]
fn zip_member_list(bytes: &Vec<u8>) -> (r: Result<Vec<ZipEntry>, String>)
    ensures
        r is Ok <==> zip_entries_of(bytes@) is Some,
        r matches Ok(v) ==> zip_entries_of(bytes@) == Some(zip_entry_views(v@)),
{
    let run = || -> zip::result::ZipResult<Vec<ZipEntry>> {
        let mut ar = zip::ZipArchive::new(std::io::Cursor::new(bytes.as_slice()))?;
        let mut out = Vec::new();
        for i in 0..ar.len() {
            let mut f = ar.by_index(i)?;
            let name = f.name().to_string();
            let mut data = Vec::new();
            std::io::Read::read_to_end(&mut f, &mut data)?;
            out.push(ZipEntry { name, data });
        }
        Ok(out)
    };
    run().map_err(|e| e.to_string())
}

/// Relies on xz2::read::XzDecoder over an in-memory reader, drained with
/// std::io::Read::read_to_end: the decompressed stream is a function of the
/// compressed bytes alone.
#[verifier::external_body]
fn xz_decode(bytes: &Vec<u8>) -> (r: Result<Vec<u8>, String>)
    ensures
        r is Ok <==> xz_decoded(bytes@) is Some,
        r matches Ok(v) ==> xz_decoded(bytes@) == Some(v@),
{
    let mut decoder = xz2::read::XzDecoder::new(std::io::Cursor::new(bytes.as_slice()));
    let mut out: Vec<u8> = Vec::new();
    match std::io::Read::read_to_end(&mut decoder, &mut out) {
        Ok(_) => Ok(out),
        Err(e) => Err(e.to_string()),
    }
}

/// Relies on tar::Archive::entries over an in-memory reader, with each
/// entry's path, kind, mode and contents read through tar's Entry: the
/// entries, a function of the archive bytes alone, are handed out as plain
/// values.
#[verifier::external_body]
fn tar_entry_list(bytes: &Vec<u8>) -> (r: Result<Vec<TarEntry>, String>)
    ensures
        r is Ok <==> tar_entries_of(bytes@) is Some,
        r matches Ok(v) ==> tar_entries_of(bytes@) == Some(tar_entry_views(v@)),
{
    let run = || -> std::io::Result<Vec<TarEntry>> {
        let mut ar = tar::Archive::new(std::io::Cursor::new(bytes.as_slice()));
        let mut out = Vec::new();
        for entry in ar.entries()? {
            let mut entry = entry?;
            let path = entry.path()?.to_string_lossy().into_owned();
            let is_dir = entry.header().entry_type().is_dir();
            let mode = entry.header().mode()?;
            let mut data = Vec::new();
            std::io::Read::read_to_end(&mut entry, &mut data)?;
            out.push(TarEntry { path, is_dir, mode, data });
        }
        Ok(out)
    };
    run().map_err(|e| e.to_string())
}

/// Whether a member name follows the inner-member naming convention: it ends
/// in `.txz`.
pub open spec fn is_txz_name(s: Seq<char>) -> bool {
    s.len() >= 4 && s.subrange(s.len() - 4, s.len() as int) == ".txz"@
}

/// The first member whose name follows the inner-member naming convention.
pub open spec fn first_txz(entries: Seq<(Seq<char>, Seq<u8>)>) -> Option<(Seq<char>, Seq<u8>)>
    decreases entries.len(),
{
    if entries.len() == 0 {
        Option::None
    } else if is_txz_name(entries[0].0) {
        Option::Some(entries[0])
    } else {
        first_txz(entries.drop_first())
    }
}

/// Check whether a member name ends in `.txz`.
pub fn ends_with_txz(s: &String) -> (r: bool)
    ensures
        r == is_txz_name(s@),
{
    let n = s.as_str().unicode_len();
    if n < 4 {
        return false;
    }
    let c1 = s.as_str().get_char(n - 4);
    let c2 = s.as_str().get_char(n - 3);
    let c3 = s.as_str().get_char(n - 2);
    let c4 = s.as_str().get_char(n - 1);
    let r = c1 == '.' && c2 == 't' && c3 == 'x' && c4 == 'z';
    proof {
        reveal_strlit(".txz");
        let m = s@.len() as int;
        let tail = s@.subrange(m - 4, m);
        assert(tail[0] == s@[m - 4]);
        assert(tail[1] == s@[m - 3]);
        assert(tail[2] == s@[m - 2]);
        assert(tail[3] == s@[m - 1]);
        if r {
            assert(tail =~= ".txz"@);
        }
    }
    r
}

/// The index of the first member whose name ends in `.txz`, if any.
fn find_txz_index(members: &Vec<ZipEntry>) -> (r: Option<usize>)
    ensures
        match r {
            Option::Some(i) => i < members@.len() && first_txz(zip_entry_views(members@))
                == Option::Some(members@[i as int]@),
            Option::None => first_txz(zip_entry_views(members@)) is None,
        },
{
    let ghost vs = zip_entry_views(members@);
    let mut i: usize = 0;
    proof {
        assert(vs.skip(0) =~= vs);
    }
    while i < members.len()
        invariant
            i <= members@.len(),
            vs == zip_entry_views(members@),
            first_txz(vs) == first_txz(vs.skip(i as int)),
        decreases members@.len() - i,
    {
        proof {
            assert(vs.skip(i as int)[0] == vs[i as int]);
            assert(vs[i as int] == members@[i as int]@);
        }
        if ends_with_txz(&members[i].name) {
            return Some(i);
        }
        proof {
            assert(vs.skip(i as int).drop_first() =~= vs.skip(i as int + 1));
        }
        i += 1;
    }
    None
}

/// Scan the outer container for the first member whose name follows the
/// inner-member naming convention and hand that member out; fail with
/// `InvalidPgPackage` when no member matches, and with `UnzipFileError`,
/// naming the container, when the container cannot be read.
pub fn unzip_txz(zip_file_path: &String, zip_bytes: &Vec<u8>) -> (r: Result<
    ZipEntry,
    PgEmbedError,
>)
    ensures
        zip_entries_of(zip_bytes@) is None ==> (r matches Err(er) && er
            matches PgEmbedError::UnzipFileError { path, e: _ } && path@ == zip_file_path@),
        zip_entries_of(zip_bytes@) matches Some(es) ==> match first_txz(es) {
            Option::None => r matches Err(er) && er == PgEmbedError::InvalidPgPackage,
            Option::Some(m) => r matches Ok(z) && z@ == m,
        },
{
    let mut members = match zip_member_list(zip_bytes) {
        Err(e) => {
            return Err(PgEmbedError::UnzipFileError { path: zip_file_path.clone(), e });
        },
        Ok(ms) => ms,
    };
    match find_txz_index(&members) {
        Some(i) => Ok(members.remove(i)),
        None => Err(PgEmbedError::InvalidPgPackage),
    }
}

/// Decompress the inner xz member into the tar archive it holds; fail with
/// `ReadFileError`, naming the member, when the stream is malformed.
pub fn decompress_xz(member_name: &String, txz_bytes: &Vec<u8>) -> (r: Result<
    Vec<u8>,
    PgEmbedError,
>)
    ensures
        r is Ok <==> xz_decoded(txz_bytes@) is Some,
        r matches Ok(v) ==> xz_decoded(txz_bytes@) == Some(v@),
        r matches Err(er) ==> (er matches PgEmbedError::ReadFileError { path, e: _ } && path@
            == member_name@),
{
    match xz_decode(txz_bytes) {
        Ok(v) => Ok(v),
        Err(e) => Err(PgEmbedError::ReadFileError { path: member_name.clone(), e }),
    }
}

/// List the tar archive's entries, paths and permission bits preserved; fail
/// with `UnpackFailure` when the archive is malformed.
pub fn decompress_tar(tar_bytes: &Vec<u8>) -> (r: Result<Vec<TarEntry>, PgEmbedError>)
    ensures
        r is Ok <==> tar_entries_of(tar_bytes@) is Some,
        r matches Ok(v) ==> tar_entries_of(tar_bytes@) == Some(tar_entry_views(v@)),
        r matches Err(er) ==> er matches PgEmbedError::UnpackFailure { e: _ },
{
    match tar_entry_list(tar_bytes) {
        Ok(v) => Ok(v),
        Err(e) => Err(PgEmbedError::UnpackFailure { e }),
    }
}

/// The tree that unpacking the package yields: the entries of the tar
/// archive held, xz-compressed, by the package's first `.txz` member —
/// or nothing when any stage fails.
pub open spec fn spec_unpack_entries(zip_bytes: Seq<u8>) -> Option<
    Seq<(Seq<char>, bool, u32, Seq<u8>)>,
> {
    match zip_entries_of(zip_bytes) {
        Option::None => Option::None,
        Option::Some(es) => match first_txz(es) {
            Option::None => Option::None,
            Option::Some(m) => match xz_decoded(m.1) {
                Option::None => Option::None,
                Option::Some(tb) => tar_entries_of(tb),
            },
        },
    }
}

/// Which error kind each failing stage reports, and with which path.
pub open spec fn spec_unpack_error(
    zip_bytes: Seq<u8>,
    zip_file_path: Seq<char>,
    er: PgEmbedError,
) -> bool {
    match zip_entries_of(zip_bytes) {
        Option::None => er matches PgEmbedError::UnzipFileError { path, e: _ } && path@
            == zip_file_path,
        Option::Some(es) => match first_txz(es) {
            Option::None => er == PgEmbedError::InvalidPgPackage,
            Option::Some(m) => match xz_decoded(m.1) {
                Option::None => er matches PgEmbedError::ReadFileError { path, e: _ } && path@
                    == m.0,
                Option::Some(tb) => tar_entries_of(tb) is None && (er
                    matches PgEmbedError::UnpackFailure { e: _ }),
            },
        },
    }
}

/// Unpack the PostgreSQL binaries package held in `zip_bytes`.
///
/// On success the returned entries are exactly the extracted tree: the
/// contents of the inner tar archive, relative paths and permission bits
/// preserved, with no intermediate artifact left over. Each failing stage
/// reports its own error kind, carrying the offending path.
pub fn unpack_postgres(zip_file_path: &String, zip_bytes: &Vec<u8>) -> (r: Result<
    Vec<TarEntry>,
    PgEmbedError,
>)
    ensures
        r is Ok <==> spec_unpack_entries(zip_bytes@) is Some,
        r matches Ok(v) ==> spec_unpack_entries(zip_bytes@) == Some(tar_entry_views(v@)),
        r matches Err(er) ==> spec_unpack_error(zip_bytes@, zip_file_path@, er),
{
    let member = match unzip_txz(zip_file_path, zip_bytes) {
        Err(er) => {
            return Err(er);
        },
        Ok(m) => m,
    };
    let tar_bytes = match decompress_xz(&member.name, &member.data) {
        Err(er) => {
            return Err(er);
        },
        Ok(tb) => tb,
    };
    match decompress_tar(&tar_bytes) {
        Err(er) => Err(er),
        Ok(entries) => Ok(entries),
    }
}

} // verus!
