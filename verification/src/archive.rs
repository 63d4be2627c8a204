//! Planning of the vendor archive: which file the tarball gets written to,
//! which codec is used, and whether an existing archive is replaced.

use vstd::prelude::*;

verus! {

/// The closed set of codecs a vendor archive can be compressed with.
#[derive(Clone, Copy, Debug, PartialEq, Eq, Structural)]
pub enum Compression {
    Gz,
    Xz,
    Zst,
}

/// The file extension that belongs to each codec.
pub open spec fn spec_extension(c: Compression) -> Seq<char> {
    match c {
        Compression::Gz => "tar.gz"@,
        Compression::Xz => "tar.xz"@,
        Compression::Zst => "tar.zst"@,
    }
}

/// The name of the archive file: the fixed base name `vendor` with the
/// codec's extension appended.
pub open spec fn spec_archive_name(c: Compression) -> Seq<char> {
    "vendor."@ + spec_extension(c)
}

/// Joining a directory and a file name with a single `/` separator; an empty
/// directory yields the bare name, and a trailing separator is not doubled.
pub open spec fn spec_join_path(dir: Seq<char>, name: Seq<char>) -> Seq<char> {
    if dir.len() == 0 {
        name
    } else if dir.last() == '/' {
        dir + name
    } else {
        dir + "/"@ + name
    }
}

pub fn archive_extension(compression: &Compression) -> (r: &'static str)
    ensures
        r@ == spec_extension(*compression),
{
    match compression {
        Compression::Gz => "tar.gz",
        Compression::Xz => "tar.xz",
        Compression::Zst => "tar.zst",
    }
}

pub fn archive_file_name(compression: &Compression) -> (r: String)
    ensures
        r@ == spec_archive_name(*compression),
{
    let mut name = String::from_str("vendor.");
    name.append(archive_extension(compression));
    name
}

pub fn join_path(dir: &str, name: &str) -> (r: String)
    ensures
        r@ == spec_join_path(dir@, name@),
{
    let n: usize = dir.unicode_len();
    if n == 0 {
        String::from_str(name)
    } else if dir.get_char(n - 1) == '/' {
        let mut r = String::from_str(dir);
        r.append(name);
        r
    } else {
        let mut r = String::from_str(dir);
        r.append("/");
        r.append(name);
        r
    }
}

/// For every codec and every output directory, the planned archive path
/// carries that codec's extension: it ends in `.` followed by the extension
/// that belongs to the codec.
pub proof fn lemma_archive_path_extension(outpath: Seq<char>, c: Compression)
    ensures
        ({
            let p = spec_join_path(outpath, spec_archive_name(c));
            let e = spec_extension(c);
            &&& p.len() > e.len()
            &&& p.subrange(p.len() as int - e.len() as int, p.len() as int) == e
            &&& p[p.len() as int - e.len() as int - 1] == '.'
        }),
{
    let p = spec_join_path(outpath, spec_archive_name(c));
    let e = spec_extension(c);
    reveal_strlit("vendor.");
    reveal_strlit("/");
    match c {
        Compression::Gz => reveal_strlit("tar.gz"),
        Compression::Xz => reveal_strlit("tar.xz"),
        Compression::Zst => reveal_strlit("tar.zst"),
    }
    assert(p.subrange(p.len() as int - e.len() as int, p.len() as int) =~= e);
}

/// Everything the archiving step needs: the full path of the tarball, the
/// directory the members are taken relative to, the members themselves, the
/// codec, and whether an older archive of the same name is being replaced.
#[derive(Debug)]
pub struct ArchivePlan {
    pub archive_path: String,
    pub base_dir: String,
    pub members: Vec<String>,
    pub compression: Compression,
    pub replace_existing: bool,
}

/// Decides how the vendored sources are archived. The archive always lands
/// at `<outpath>/vendor.<ext>` with the extension picked by the codec; an
/// archive that already exists is replaced, never an error, and the caller
/// is told so it can warn.
pub fn compress(
    outpath: &str,
    prjdir: &str,
    paths_to_archive: Vec<String>,
    compression: &Compression,
    archive_exists: bool,
) -> (r: ArchivePlan)
    ensures
        r.archive_path@ == spec_join_path(outpath@, spec_archive_name(*compression)),
        r.base_dir@ == prjdir@,
        r.members == paths_to_archive,
        r.compression == *compression,
        r.replace_existing == archive_exists,
{
    let name = archive_file_name(compression);
    ArchivePlan {
        archive_path: join_path(outpath, name.as_str()),
        base_dir: String::from_str(prjdir),
        members: paths_to_archive,
        compression: *compression,
        replace_existing: archive_exists,
    }
}

} // verus!
