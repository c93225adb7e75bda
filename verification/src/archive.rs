//! The archive: the images of the costumes, each under the name that its
//! descriptor gives, and `project.json` after them.

use crate::project::{Project, ProjectView};
use crate::text::chars_of;
use crate::unit::{Unit, UnitView};
use std::io::Write;
use vstd::prelude::*;
use vstd::utf8::{encode_utf8, is_ascii_chars, is_ascii_chars_encode_utf8};

verus! {

/// `rawzip::ZipArchiveWriter`, the writer of a ZIP archive.
#[verifier::external_type_specification]
#[verifier::external_body]
#[verifier::reject_recursive_types(W)]
pub struct ExZipArchiveWriter<W>(rawzip::ZipArchiveWriter<W>);

/// `rawzip::Error`, what the writer of a ZIP archive fails with.
#[verifier::external_type_specification]
#[verifier::external_body]
pub struct ExZipError(rawzip::Error);

/// The entries that have been written into the archive: the name under which
/// each is stored and its content, in order.
pub uninterp spec fn written(archive: rawzip::ZipArchiveWriter<Vec<u8>>) -> Seq<
    (Seq<char>, Seq<u8>),
>;

/// The bytes of the ZIP archive with the given entries, each deflated.
pub uninterp spec fn zip_image(entries: Seq<(Seq<char>, Seq<u8>)>) -> Seq<u8>;

/// Whether a part of the path `name` starts at `i`: at the front, or behind a
/// slash.
pub open spec fn part_starts(name: Seq<char>, i: int) -> bool {
    i == 0 || name[i - 1] == '/'
}

/// Whether a part of the path `name` ends before `i`: at the end, or before a
/// slash.
pub open spec fn part_ends(name: Seq<char>, i: int) -> bool {
    i == name.len() || name[i] == '/'
}

/// Whether the part of `name` that starts at `i` is empty, `.` or `..`.
pub open spec fn idle_part(name: Seq<char>, i: int) -> bool {
    ||| part_ends(name, i)
    ||| i < name.len() && name[i] == '.' && part_ends(name, i + 1)
    ||| i + 1 < name.len() && name[i] == '.' && name[i + 1] == '.' && part_ends(name, i + 2)
}

/// Whether an archive stores a file under `name` as it is: the name holds
/// neither a backslash nor a colon, none of its parts between slashes is
/// empty, `.` or `..`, so that it neither begins nor ends with a slash, and
/// it takes at most 65535 bytes in UTF-8.
pub open spec fn plain_name(name: Seq<char>) -> bool {
    &&& encode_utf8(name).len() <= 65535
    &&& forall|i: int| 0 <= i < name.len() ==> #[trigger] name[i] != '\\' && name[i] != ':'
    &&& forall|i: int|
        0 <= i <= name.len() && #[trigger] part_starts(name, i) ==> !idle_part(name, i)
}

/// `rawzip::ZipArchiveWriter::new`, here on an empty vector of bytes: a
/// writer into which no entry has been written.
#[verifier::external_body]
fn new_archive() -> (archive: rawzip::ZipArchiveWriter<Vec<u8>>)
    ensures
        written(archive) == Seq::<(Seq<char>, Seq<u8>)>::empty(),
{
    rawzip::ZipArchiveWriter::new(Vec::new())
}

/// Writes one file into the archive as rawzip wants it done: `new_file` with
/// the deflate method and `start` open the entry, a `DeflateEncoder` of
/// flate2 at its default level compresses the content into it, and the two
/// `finish` calls close the data and the entry.
///
/// rawzip brings a name into its normal form before it stores it: it turns
/// backslashes into slashes, drops what stands before a colon, drops empty
/// parts and `.`, resolves `..`, and drops a slash at the end. A plain name
/// is one that all of this leaves as it is, so the entry is stored under the
/// name given. The only thing that rawzip refuses is a name of more than
/// 65535 bytes, which no plain name is, and nothing fails to be written into
/// a vector: the calls succeed.
#[verifier::external_body]
fn write_entry(archive: &mut rawzip::ZipArchiveWriter<Vec<u8>>, name: &str, content: &[u8]) -> (r:
    Result<(), rawzip::Error>)
    requires
        plain_name(name@),
    ensures
        r is Ok,
        written(*final(archive)) == written(*old(archive)).push((name@, content@)),
{
    let (mut entry, config) = archive.new_file(name).compression_method(
        rawzip::CompressionMethod::DEFLATE,
    ).start()?;
    let encoder = flate2::write::DeflateEncoder::new(&mut entry, flate2::Compression::default());
    let mut file = config.wrap(encoder);
    file.write_all(content)?;
    let (encoder, descriptor) = file.finish()?;
    encoder.finish()?;
    entry.finish(descriptor)?;
    Ok(())
}

/// `rawzip::ZipArchiveWriter::finish`: writes the directory of the archive
/// and hands back the vector, which then holds the whole archive. Its bytes
/// depend on the entries alone: no time and no other state of the machine
/// goes into them. It fails only where a comment is too long or the vector
/// refuses a byte; this module sets no comment, and a vector refuses none.
#[verifier::external_body]
fn finish_archive(archive: rawzip::ZipArchiveWriter<Vec<u8>>) -> (r: Result<Vec<u8>, rawzip::Error>)
    ensures
        r is Ok,
        r matches Ok(bytes) ==> bytes@ == zip_image(written(archive)),
{
    archive.finish()
}

/// The step at which writing the archive failed.
#[derive(Clone, Copy, Debug, PartialEq, Eq, Structural)]
pub enum ArchiveError {
    /// The image of a costume could not be written: the name under which it
    /// is to be stored is not plain.
    Costume,
    /// `project.json` could not be written.
    ProjectJson,
    /// The directory of the archive could not be written.
    Directory,
}

/// The images of the costumes of one target as entries of the archive: each
/// under the name that its descriptor gives.
pub open spec fn unit_assets(unit: UnitView) -> Seq<(Seq<char>, Seq<u8>)> {
    Seq::new(unit.costumes.len(), |i: int| (unit.costumes[i].md5ext, unit.costumes[i].content))
}

/// The images of the costumes of the targets, target by target.
pub open spec fn assets(units: Seq<UnitView>) -> Seq<(Seq<char>, Seq<u8>)>
    decreases units.len(),
{
    if units.len() == 0 {
        Seq::empty()
    } else {
        assets(units.drop_last()) + unit_assets(units.last())
    }
}

impl ProjectView {
    /// The entries of the archive of the project: the images of the
    /// costumes, and after them `project.json`, which holds the text of the
    /// project in UTF-8.
    pub open spec fn entries(self) -> Seq<(Seq<char>, Seq<u8>)> {
        assets(self.units).push(("project.json"@, encode_utf8(self.text())))
    }
}

/// What writing an entry comes to: the failure of the outside writer becomes
/// the failure of the step `step`.
pub fn entry_outcome(result: Result<(), rawzip::Error>, step: ArchiveError) -> (r: Result<
    (),
    ArchiveError,
>)
    ensures
        result is Ok ==> r is Ok,
        result is Err ==> r == Err::<(), ArchiveError>(step),
{
    match result {
        Ok(()) => Ok(()),
        Err(_) => Err(step),
    }
}

/// What finishing the archive comes to: the bytes, or the failure to write
/// the directory.
pub fn archive_outcome(result: Result<Vec<u8>, rawzip::Error>) -> (r: Result<Vec<u8>, ArchiveError>)
    ensures
        result matches Ok(bytes) ==> r == Ok::<Vec<u8>, ArchiveError>(bytes),
        result is Err ==> r == Err::<Vec<u8>, ArchiveError>(ArchiveError::Directory),
{
    match result {
        Ok(bytes) => Ok(bytes),
        Err(_) => Err(ArchiveError::Directory),
    }
}

/// Whether `name` is a plain name.
pub fn name_is_plain(name: &str) -> (r: bool)
    ensures
        r == plain_name(name@),
{
    if name.as_bytes().len() > 65535 {
        return false;
    }
    let chars = chars_of(name);
    let n = chars.len();
    if n == 0 || chars[n - 1] == '/' {
        assert(part_starts(chars@, n as int) && idle_part(chars@, n as int));
        return false;
    }
    let mut i: usize = 0;
    while i < n
        invariant
            i <= n,
            n == chars.len(),
            chars@ == name@,
            encode_utf8(name@).len() <= 65535,
            n > 0 && chars@[n - 1] != '/',
            forall|j: int| 0 <= j < i ==> #[trigger] chars@[j] != '\\' && chars@[j] != ':',
            forall|j: int|
                0 <= j < i && #[trigger] part_starts(chars@, j) ==> !idle_part(chars@, j),
        decreases n - i,
    {
        if chars[i] == '\\' || chars[i] == ':' {
            return false;
        }
        if i == 0 || chars[i - 1] == '/' {
            let rest = n - i;
            let empty = chars[i] == '/';
            let one_dot = chars[i] == '.' && (rest == 1 || chars[i + 1] == '/');
            let two_dots = rest >= 2 && chars[i] == '.' && chars[i + 1] == '.' && (rest == 2
                || chars[i + 2] == '/');
            if empty || one_dot || two_dots {
                assert(part_starts(chars@, i as int) && idle_part(chars@, i as int));
                return false;
            }
        }
        i = i + 1;
    }
    true
}

/// The name of the entry that holds the text of the project is plain.
pub proof fn project_json_is_plain()
    ensures
        plain_name("project.json"@),
{
    let name = "project.json"@;
    reveal_strlit("project.json");
    assert(is_ascii_chars(name));
    is_ascii_chars_encode_utf8(name);
    assert forall|i: int|
        0 <= i <= name.len() && #[trigger] part_starts(name, i) implies !idle_part(name, i) by {
        assert(i == 0);
    }
}

impl UnitView {
    /// Whether the name under which each image is to be stored is plain.
    pub open spec fn names_plain(self) -> bool {
        forall|k: int|
            0 <= k < self.costumes.len() ==> plain_name((#[trigger] self.costumes[k]).md5ext)
    }
}

impl ProjectView {
    /// Whether the name under which each image of each target is to be
    /// stored is plain.
    pub open spec fn names_plain(self) -> bool {
        forall|i: int| 0 <= i < self.units.len() ==> (#[trigger] self.units[i]).names_plain()
    }
}

impl Unit {
    /// Writes the images of the costumes into the archive, as far as their
    /// names are plain.
    fn write_assets(&self, archive: &mut rawzip::ZipArchiveWriter<Vec<u8>>) -> (r: Result<
        (),
        ArchiveError,
    >)
        ensures
            r is Ok <==> self@.names_plain(),
            r is Ok ==> written(*final(archive)) == written(*old(archive)) + unit_assets(self@),
            r matches Err(e) ==> e == ArchiveError::Costume,
    {
        let ghost entries = unit_assets(self@);
        let mut i: usize = 0;
        while i < self.costume_count()
            invariant
                i <= self@.costumes.len(),
                entries == unit_assets(self@),
                written(*archive) == written(*old(archive)) + entries.take(i as int),
                forall|k: int|
                    0 <= k < i ==> plain_name((#[trigger] self@.costumes[k]).md5ext),
            decreases self@.costumes.len() - i,
        {
            let costume = self.costume(i);
            if !name_is_plain(costume.md5ext()) {
                return Err(ArchiveError::Costume);
            }
            let outcome = write_entry(archive, costume.md5ext(), costume.content());
            match entry_outcome(outcome, ArchiveError::Costume) {
                Ok(()) => {},
                Err(e) => {
                    return Err(e);
                },
            }
            assert(entries.take(i as int).push(entries[i as int]) == entries.take(i + 1));
            i = i + 1;
        }
        assert(entries.take(i as int) == entries);
        Ok(())
    }
}

impl Project {
    /// The project as a ZIP archive: the images of all costumes, then
    /// `project.json`.
    ///
    /// The archive is made where the name under which each image is to be
    /// stored is plain, and only there: an archive would store another name
    /// in place of one that is not, and the descriptor of the costume would
    /// then name an entry that the archive does not hold.
    pub fn archive(&self) -> (r: Result<Vec<u8>, ArchiveError>)
        ensures
            r is Ok <==> self@.names_plain(),
            r matches Ok(bytes) ==> bytes@ == zip_image(self@.entries()),
            r matches Err(e) ==> e == ArchiveError::Costume,
    {
        let mut archive = new_archive();
        let mut i: usize = 0;
        assert(self@.units.take(0) == Seq::<UnitView>::empty());
        while i < self.unit_count()
            invariant
                i <= self@.units.len(),
                written(archive) == assets(self@.units.take(i as int)),
                forall|u: int| 0 <= u < i ==> (#[trigger] self@.units[u]).names_plain(),
            decreases self@.units.len() - i,
        {
            assert(self@.units.take(i + 1).drop_last() == self@.units.take(i as int));
            match self.unit(i).write_assets(&mut archive) {
                Ok(()) => {},
                Err(e) => {
                    return Err(e);
                },
            }
            i = i + 1;
        }
        assert(self@.units.take(i as int) == self@.units);
        let text = self.encode();
        proof {
            project_json_is_plain();
        }
        let json = write_entry(&mut archive, "project.json", text.as_str().as_bytes());
        match entry_outcome(json, ArchiveError::ProjectJson) {
            Ok(()) => {},
            Err(e) => {
                return Err(e);
            },
        }
        archive_outcome(finish_archive(archive))
    }
}

} // verus!
