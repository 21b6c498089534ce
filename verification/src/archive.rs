use std::io::Cursor;
use std::io::Read;
use vstd::prelude::*;
use zip::result::ZipError;
use zip::ZipArchive;
use crate::text::ends_with_char;

verus! {

#[verifier::external_type_specification]
#[verifier::external_body]
#[verifier::reject_recursive_types(R)]
pub struct ExZipArchive<R>(ZipArchive<R>);

#[verifier::external_type_specification]
#[verifier::external_body]
#[verifier::reject_recursive_types(T)]
pub struct ExCursor<T>(Cursor<T>);

#[verifier::external_type_specification]
#[verifier::external_body]
pub struct ExZipError(ZipError);

/// One entry of an archive as values: its name, whether the archive can open it, the
/// unpacked bytes that reading it yields (all of them, or those that came before the
/// read failed), and whether the read runs to the end without failing.
pub type EntryView = (Seq<char>, bool, Seq<u8>, bool);

/// What an opened archive holds, entry by entry in the order the archive files them; an
/// entry whose name repeats an earlier one takes that earlier entry's place.
pub uninterp spec fn archive_entries(archive: ZipArchive<Cursor<Vec<u8>>>) -> Seq<EntryView>;

/// What `ZipArchive::new` reads from these bytes: the entries, or `None` when it refuses them.
pub uninterp spec fn zip_read(data: Seq<u8>) -> Option<Seq<EntryView>>;

/// Calls `zip::ZipArchive::new` on the bytes. The claim: it succeeds exactly when
/// `zip_read` has entries for the bytes, and the archive then holds those entries.
#[verifier::external_body]
fn zip_open(data: Vec<u8>) -> (res: Result<ZipArchive<Cursor<Vec<u8>>>, ZipError>)
    ensures
        res is Ok <==> zip_read(data@) is Some,
        res matches Ok(a) ==> archive_entries(a) == zip_read(data@)->Some_0,
{
    ZipArchive::new(Cursor::new(data))
}

/// Calls `ZipArchive::len`: the number of entries.
#[verifier::external_body]
fn zip_len(archive: &ZipArchive<Cursor<Vec<u8>>>) -> (res: usize)
    ensures
        res == archive_entries(*archive).len(),
{
    archive.len()
}

/// Calls `ZipArchive::name_for_index`: the name of entry `index` (the key under which the
/// archive files the entry, which is the name `ZipFile::name` gives), `None` past the end.
#[verifier::external_body]
fn zip_entry_name(archive: &ZipArchive<Cursor<Vec<u8>>>, index: usize) -> (res: Option<String>)
    ensures
        index < archive_entries(*archive).len() ==> res is Some,
        res matches Some(n) ==> n@ == archive_entries(*archive)[index as int].0,
        index >= archive_entries(*archive).len() ==> res is None,
{
    archive.name_for_index(index).map(str::to_string)
}

/// Calls `ZipArchive::by_index` and drops the opened entry. The claim: it succeeds exactly
/// when entry `index` can be opened; the archive holds the same entries afterwards.
#[verifier::external_body]
fn zip_entry_opens(archive: &mut ZipArchive<Cursor<Vec<u8>>>, index: usize) -> (res: Result<
    (),
    ZipError,
>)
    requires
        index < archive_entries(*old(archive)).len(),
    ensures
        archive_entries(*final(archive)) == archive_entries(*old(archive)),
        res is Ok <==> archive_entries(*old(archive))[index as int].1,
{
    match archive.by_index(index) {
        Ok(_) => Ok(()),
        Err(e) => Err(e),
    }
}

/// Calls `ZipArchive::by_index` and reads the opened entry to its end with
/// `Read::read_to_end`, which keeps the bytes read before a failure. The claim: the bytes
/// are the entry's bytes as named, none when the entry does not open; the outcome is
/// `Ok` exactly when the read runs to the end, which needs the entry to open; the archive
/// holds the same entries afterwards. The error's text is left unsaid.
#[verifier::external_body]
fn zip_entry_bytes(archive: &mut ZipArchive<Cursor<Vec<u8>>>, index: usize) -> (res: (
    Vec<u8>,
    Result<(), String>,
))
    requires
        index < archive_entries(*old(archive)).len(),
    ensures
        archive_entries(*final(archive)) == archive_entries(*old(archive)),
        res.0@ == archive_entries(*old(archive))[index as int].2,
        !archive_entries(*old(archive))[index as int].1 ==> res.0@.len() == 0,
        res.1 is Ok <==> archive_entries(*old(archive))[index as int].3,
        res.1 is Ok ==> archive_entries(*old(archive))[index as int].1,
{
    let mut bytes = Vec::new();
    let outcome = match archive.by_index(index) {
        Ok(mut file) => match file.read_to_end(&mut bytes) {
            Ok(_) => Ok(()),
            Err(e) => Err(format!("{}", e)),
        },
        Err(e) => Err(format!("{}", e)),
    };
    (bytes, outcome)
}

/// The text of a `ZipError`, as its `Display` writes it. Every variant's text starts
/// with a fixed non-empty phrase, so the text is never empty; which text it is, is left
/// unsaid.
#[verifier::external_body]
fn zip_error_text(err: &ZipError) -> (res: String)
    ensures
        res@.len() > 0,
{
    format!("{}", err)
}

/// Why an update archive could not be read, in the words shown to the user.
pub struct ArchiveError {
    pub message: String,
}

/// What an entry of the archive is, by its name: a directory when the name ends with `/`,
/// else a file. Names are relative to the folder the archive is unpacked into.
pub enum EntryKind {
    Directory(String),
    File(String),
}

/// What reading a file entry gave: the bytes read (all of them, or those before a
/// failure), and whether the read ran to the end.
pub struct EntryRead {
    pub bytes: Vec<u8>,
    pub outcome: Result<(), ArchiveError>,
}

/// An opened update archive.
pub struct UpdateArchive {
    archive: ZipArchive<Cursor<Vec<u8>>>,
}

impl View for UpdateArchive {
    type V = Seq<EntryView>;

    closed spec fn view(&self) -> Seq<EntryView> {
        archive_entries(self.archive)
    }
}

/// An entry names a directory when its name ends with `/`.
pub open spec fn names_directory(name: Seq<char>) -> bool {
    name.len() > 0 && name.last() == '/'
}

/// Whether an entry name names a directory.
pub fn is_directory_entry(name: &str) -> (res: bool)
    ensures
        res == names_directory(name@),
{
    ends_with_char(name, '/')
}

/// The error shown for a `ZipError`: the zip crate's own text of it, never empty.
fn archive_error(err: ZipError) -> (res: ArchiveError)
    ensures
        res.message@.len() > 0,
{
    ArchiveError { message: zip_error_text(&err) }
}

impl UpdateArchive {
    /// Opens the downloaded bytes as a zip archive.
    pub fn open(data: Vec<u8>) -> (res: Result<UpdateArchive, ArchiveError>)
        ensures
            res is Ok <==> zip_read(data@) is Some,
            res matches Ok(a) ==> a@ == zip_read(data@)->Some_0,
            res matches Err(e) ==> e.message@.len() > 0,
    {
        match zip_open(data) {
            Ok(archive) => Ok(UpdateArchive { archive }),
            Err(e) => Err(archive_error(e)),
        }
    }

    /// The number of entries.
    pub fn len(&self) -> (res: usize)
        ensures
            res == self@.len(),
    {
        zip_len(&self.archive)
    }

    /// Opens entry `index` and tells what it is. An entry that does not open is an
    /// error, and then nothing of it is to be unpacked.
    pub fn entry_kind(&mut self, index: usize) -> (res: Result<EntryKind, ArchiveError>)
        requires
            index < old(self)@.len(),
        ensures
            final(self)@ == old(self)@,
            res is Ok <==> old(self)@[index as int].1,
            res matches Err(e) ==> e.message@.len() > 0,
            res matches Ok(k) ==> ({
                let name = old(self)@[index as int].0;
                if names_directory(name) {
                    k matches EntryKind::Directory(d) && d@ == name
                } else {
                    k matches EntryKind::File(f) && f@ == name
                }
            }),
    {
        let name = match zip_entry_name(&self.archive, index) {
            Some(n) => n,
            None => {
                return Err(
                    ArchiveError { message: String::from_str("specified file not found in archive") },
                );
            },
        };
        match zip_entry_opens(&mut self.archive, index) {
            Ok(()) => {
                if is_directory_entry(name.as_str()) {
                    Ok(EntryKind::Directory(name))
                } else {
                    Ok(EntryKind::File(name))
                }
            },
            Err(e) => Err(archive_error(e)),
        }
    }

    /// Reads entry `index` to its end: the bytes read, all of them or those that came
    /// before the read failed, and whether it ran to the end.
    pub fn entry_contents(&mut self, index: usize) -> (res: EntryRead)
        requires
            index < old(self)@.len(),
        ensures
            final(self)@ == old(self)@,
            res.bytes@ == old(self)@[index as int].2,
            res.outcome is Ok <==> old(self)@[index as int].3,
            res.outcome is Ok ==> old(self)@[index as int].1,
    {
        let (bytes, outcome) = zip_entry_bytes(&mut self.archive, index);
        match outcome {
            Ok(()) => EntryRead { bytes, outcome: Ok(()) },
            Err(message) => EntryRead { bytes, outcome: Err(ArchiveError { message }) },
        }
    }
}

} // verus!
