//! The container: a zip archive whose stored entries become the part store.

use vstd::prelude::*;
use std::io::Cursor;
use std::io::Read;
use zip::result::ZipError;
use zip::ZipArchive;
use crate::error::{ContainerFault, ContainerFaultView, ErrorView, ExcelizeError};
use crate::excelize::{Spreadsheet, SpreadsheetView};
use crate::text::ends_with_slash;

verus! {

/// The archive reader of the `zip` crate.
#[verifier::external_type_specification]
#[verifier::external_body]
#[verifier::reject_recursive_types(R)]
pub struct ExZipArchive<R>(ZipArchive<R>);

/// The in-memory reader of std that the archive reads from.
#[verifier::external_type_specification]
#[verifier::external_body]
#[verifier::reject_recursive_types(T)]
pub struct ExCursor<T>(Cursor<T>);

/// The error of the `zip` crate.
#[verifier::external_type_specification]
#[verifier::external_body]
pub struct ExZipError(ZipError);

/// One entry of an archive as reading it shows it: the name it is stored
/// under, that name as a path below the extraction root, where it stays
/// below it, and what the entry decompresses to, where that succeeds.
#[derive(Debug, PartialEq, Eq)]
pub struct Entry {
    pub name: String,
    pub enclosed: Option<String>,
    pub data: Option<Vec<u8>>,
}

/// An [`Entry`] with its texts as sequences of characters and its data as
/// a sequence of bytes.
pub struct EntryView {
    pub name: Seq<char>,
    pub enclosed: Option<Seq<char>>,
    pub data: Option<Seq<u8>>,
}

impl View for Entry {
    type V = EntryView;

    open spec fn view(&self) -> EntryView {
        EntryView {
            name: self.name@,
            enclosed: match self.enclosed {
                Some(path) => Some(path@),
                None => None,
            },
            data: match self.data {
                Some(data) => Some(data@),
                None => None,
            },
        }
    }
}

/// What reading an entry gave, with its texts as sequences of characters;
/// nothing for an entry that cannot be opened.
pub open spec fn read_view(entry: Option<Entry>) -> Option<EntryView> {
    match entry {
        Some(entry) => Some(entry@),
        None => None,
    }
}

/// What reading each entry of an open archive gives, in the order of its
/// central directory; nothing for an entry that cannot be opened.
pub uninterp spec fn archive_entries(archive: ZipArchive<Cursor<Vec<u8>>>) -> Seq<Option<EntryView>>;

/// What reading each entry of the archive that `bytes` hold gives, where
/// they hold one.
pub uninterp spec fn container_entries(bytes: Seq<u8>) -> Option<Seq<Option<EntryView>>>;

/// `ZipArchive::new` of the `zip` crate, over a `Cursor` on the bytes. It
/// reads the central directory: the archive it returns has the entries that
/// the bytes hold, and it fails exactly where they hold no archive.
#[verifier::external_body]
fn open_archive(bytes: Vec<u8>) -> (res: Result<ZipArchive<Cursor<Vec<u8>>>, ZipError>)
    ensures
        match res {
            Ok(archive) => container_entries(bytes@) == Some(archive_entries(archive)),
            Err(_) => container_entries(bytes@) is None,
        },
{
    ZipArchive::new(Cursor::new(bytes))
}

/// `ZipArchive::len` of the `zip` crate: the number of entries.
#[verifier::external_body]
fn entry_count(archive: &ZipArchive<Cursor<Vec<u8>>>) -> (count: usize)
    ensures
        count == archive_entries(*archive).len(),
{
    archive.len()
}

/// `ZipArchive::by_index_decrypt` of the `zip` crate with the empty
/// password, and the entry it hands out as plain values: `ZipFile::name`,
/// `ZipFile::enclosed_name` as text, and what `Read::read_to_end` gives,
/// where it reaches the end with a matching checksum. Nothing is returned
/// for an entry that cannot be opened, or for an `index` past the last
/// entry. The entries stay as they are.
///
/// The password-taking form is called because `by_index` panics on an
/// entry with AES data and no encryption flag, where this one fails.
#[verifier::external_body]
fn entry_at(archive: &mut ZipArchive<Cursor<Vec<u8>>>, index: usize) -> (res: Option<Entry>)
    ensures
        archive_entries(*final(archive)) == archive_entries(*old(archive)),
        index >= archive_entries(*old(archive)).len() ==> res is None,
        index < archive_entries(*old(archive)).len() ==> read_view(res) == archive_entries(
            *old(archive),
        )[index as int],
{
    let mut file = archive.by_index_decrypt(index, &[]).ok()?.ok()?;
    let name = String::from(file.name());
    let enclosed = match file.enclosed_name() {
        Some(path) => path.to_str().map(String::from),
        None => None,
    };
    let mut data = Vec::new();
    let data = match file.read_to_end(&mut data) {
        Ok(_) => Some(data),
        Err(_) => None,
    };
    Some(Entry { name, enclosed, data })
}

/// Whether an entry of this name marks a directory.
pub open spec fn is_directory(name: Seq<char>) -> bool {
    name.len() > 0 && name.last() == '/'
}

/// What the entry at `index` adds to the part store: its data under the
/// path below the extraction root that its name gives, or nothing where it
/// marks a directory. An entry that cannot be opened, whose name leaves the
/// extraction root, or whose data cannot be read, is a fault.
pub open spec fn placed(index: usize, entry: Option<EntryView>) -> Result<
    Option<(Seq<char>, Seq<u8>)>,
    ContainerFaultView,
> {
    match entry {
        None => Err(ContainerFaultView::EntryUnreadable(index)),
        Some(entry) => match entry.enclosed {
            None => Err(ContainerFaultView::UnsafeEntryName(entry.name)),
            Some(path) => if is_directory(entry.name) {
                Ok(None)
            } else {
                match entry.data {
                    None => Err(ContainerFaultView::EntryUnreadable(index)),
                    Some(data) => Ok(Some((path, data))),
                }
            },
        },
    }
}

/// The part store that the entries from position `from` on add to `parts`,
/// or the fault of the first entry that cannot be taken. An entry stored
/// twice under one path counts as it is stored last.
pub open spec fn stored_from(
    entries: Seq<Option<EntryView>>,
    from: int,
    parts: Map<Seq<char>, Seq<u8>>,
) -> Result<Map<Seq<char>, Seq<u8>>, ContainerFaultView>
    decreases entries.len() - from,
{
    if from < 0 || from >= entries.len() {
        Ok(parts)
    } else {
        match placed(from as usize, entries[from]) {
            Err(fault) => Err(fault),
            Ok(None) => stored_from(entries, from + 1, parts),
            Ok(Some((path, data))) => stored_from(entries, from + 1, parts.insert(path, data)),
        }
    }
}

/// The part store that a container holds, or why it holds none.
pub open spec fn unpacked(bytes: Seq<u8>) -> Result<Map<Seq<char>, Seq<u8>>, ContainerFaultView> {
    match container_entries(bytes) {
        None => Err(ContainerFaultView::NotAnArchive),
        Some(entries) => stored_from(entries, 0, Map::empty()),
    }
}

/// Decides what the entry at `index` adds to the part store, from what
/// reading it gave; see [`placed`].
pub fn place_entry(index: usize, entry: Option<Entry>) -> (res: Result<
    Option<(String, Vec<u8>)>,
    ContainerFault,
>)
    ensures
        match placed(index, read_view(entry)) {
            Ok(Some((path, data))) => res matches Ok(Some((p, d))) && p@ == path && d@ == data,
            Ok(None) => res matches Ok(None),
            Err(fault) => res matches Err(f) && f@ == fault,
        },
{
    match entry {
        None => Err(ContainerFault::EntryUnreadable(index)),
        Some(entry) => match entry.enclosed {
            None => Err(ContainerFault::UnsafeEntryName(entry.name)),
            Some(path) => if ends_with_slash(entry.name.as_str()) {
                Ok(None)
            } else {
                match entry.data {
                    None => Err(ContainerFault::EntryUnreadable(index)),
                    Some(data) => Ok(Some((path, data))),
                }
            },
        },
    }
}

impl Spreadsheet {
    /// Unpacks a container into a package with its part store filled and
    /// nothing loaded.
    pub fn unpack(bytes: Vec<u8>) -> (res: Result<Spreadsheet, ExcelizeError>)
        ensures
            match unpacked(bytes@) {
                Ok(parts) => res is Ok && res->Ok_0@ == (SpreadsheetView {
                    file: parts,
                    ..SpreadsheetView::empty()
                }),
                Err(fault) => res is Err && res->Err_0@ == ErrorView::Container(fault),
            },
    {
        let mut archive = match open_archive(bytes) {
            Ok(archive) => archive,
            Err(_) => {
                return Err(ExcelizeError::Container(ContainerFault::NotAnArchive));
            },
        };
        let ghost entries = archive_entries(archive);
        let mut doc = Spreadsheet::new();
        let count = entry_count(&archive);
        let mut i: usize = 0;
        while i < count
            invariant
                i <= count,
                count == entries.len(),
                archive_entries(archive) == entries,
                container_entries(bytes@) == Some(entries),
                doc@ == (SpreadsheetView { file: doc@.file, ..SpreadsheetView::empty() }),
                stored_from(entries, 0, Map::empty()) == stored_from(entries, i as int, doc@.file),
            decreases count - i,
        {
            let entry = entry_at(&mut archive, i);
            match place_entry(i, entry) {
                Err(fault) => {
                    return Err(ExcelizeError::Container(fault));
                },
                Ok(None) => {},
                Ok(Some((path, data))) => {
                    let ghost before = doc@;
                    doc.file.insert(path, data);
                    assert(doc@.file =~= before.file.insert(path@, data@));
                },
            }
            i += 1;
        }
        Ok(doc)
    }
}

} // verus!
