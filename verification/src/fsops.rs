//! Directory listing and creation: the decisions and the entry mapping, over
//! what the host filesystem reported.

use vstd::prelude::*;
use crate::text::concat_strs;

verus! {

/// One listed child of a directory.
pub struct FileEntry {
    pub name: String,
    pub path: String,
    pub is_dir: bool,
}

pub struct FileEntryView {
    pub name: Seq<char>,
    pub path: Seq<char>,
    pub is_dir: bool,
}

impl View for FileEntry {
    type V = FileEntryView;

    open spec fn view(&self) -> FileEntryView {
        FileEntryView { name: self.name@, path: self.path@, is_dir: self.is_dir }
    }
}

/// What the host reported for one directory entry.
pub enum EntryProbe {
    /// A readable entry: its file name, its full path, and whether it is a
    /// directory.
    Named { name: String, path: String, is_dir: bool },
    /// A readable entry whose file name could not be determined.
    Unnamed,
    /// An entry that could not be read.
    Unreadable,
}

/// What the host reported for a directory-listing request.
pub enum DirListing {
    /// The path does not exist.
    Missing,
    /// The path exists but is not a directory.
    NotDirectory,
    /// The directory could not be opened; the host's error text.
    ReadError { message: String },
    /// The directory's immediate children, in the order the host produced
    /// them.
    Entries { entries: Vec<EntryProbe> },
}

pub open spec fn dir_missing_msg(dir: Seq<char>) -> Seq<char> {
    "Directory does not exist: "@ + dir
}

pub open spec fn not_a_dir_msg(dir: Seq<char>) -> Seq<char> {
    "Path is not a directory: "@ + dir
}

pub open spec fn dir_read_msg(err: Seq<char>) -> Seq<char> {
    "Failed to read directory: "@ + err
}

pub open spec fn create_dir_msg(err: Seq<char>) -> Seq<char> {
    "Failed to create directory: "@ + err
}

/// The listing a sequence of probed entries yields: one entry per named
/// probe, in order; unnamed and unreadable probes are skipped.
pub open spec fn entries_view(es: Seq<EntryProbe>) -> Seq<FileEntryView>
    decreases es.len(),
{
    if es.len() == 0 {
        Seq::empty()
    } else {
        let rest = entries_view(es.skip(1));
        match es[0] {
            EntryProbe::Named { name, path, is_dir } => seq![
                FileEntryView { name: name@, path: path@, is_dir },
            ] + rest,
            _ => rest,
        }
    }
}

pub open spec fn file_entries_view(es: Seq<FileEntry>) -> Seq<FileEntryView> {
    es.map_values(|e: FileEntry| e@)
}

/// List a directory's immediate children from what the host reported:
/// existence and directory-ness are checked first, then every named child
/// becomes an entry, and unreadable or nameless children are skipped.
pub fn read_dir(dir: &str, listing: DirListing) -> (r: Result<Vec<FileEntry>, String>)
    ensures
        match listing {
            DirListing::Missing => r is Err && r->Err_0@ == dir_missing_msg(dir@),
            DirListing::NotDirectory => r is Err && r->Err_0@ == not_a_dir_msg(dir@),
            DirListing::ReadError { message } => r is Err && r->Err_0@ == dir_read_msg(message@),
            DirListing::Entries { entries } => r is Ok && file_entries_view(r->Ok_0@)
                == entries_view(entries@),
        },
{
    match listing {
        DirListing::Missing => Err(concat_strs("Directory does not exist: ", dir)),
        DirListing::NotDirectory => Err(concat_strs("Path is not a directory: ", dir)),
        DirListing::ReadError { message } => Err(
            concat_strs("Failed to read directory: ", message.as_str()),
        ),
        DirListing::Entries { entries } => {
            let n = entries.len();
            let mut result: Vec<FileEntry> = Vec::new();
            let mut i: usize = 0;
            proof {
                assert(entries@.skip(0) =~= entries@);
                assert(file_entries_view(result@) =~= Seq::<FileEntryView>::empty());
            }
            while i < n
                invariant
                    i <= n,
                    n == entries@.len(),
                    file_entries_view(result@) + entries_view(entries@.skip(i as int))
                        == entries_view(entries@),
                decreases n - i,
            {
                proof {
                    assert(entries@.skip(i as int)[0] == entries@[i as int]);
                    assert(entries@.skip(i as int).skip(1) =~= entries@.skip(i as int + 1));
                }
                match &entries[i] {
                    EntryProbe::Named { name, path, is_dir } => {
                        let entry = FileEntry {
                            name: name.clone(),
                            path: path.clone(),
                            is_dir: *is_dir,
                        };
                        let ghost prev = result@;
                        result.push(entry);
                        proof {
                            assert(file_entries_view(result@) =~= file_entries_view(prev)
                                + seq![entry@]);
                            assert(file_entries_view(prev) + seq![entry@] + entries_view(
                                entries@.skip(i as int + 1),
                            ) =~= file_entries_view(prev) + entries_view(entries@.skip(i as int)));
                        }
                    },
                    EntryProbe::Unnamed => {},
                    EntryProbe::Unreadable => {},
                }
                i += 1;
            }
            proof {
                assert(entries@.skip(i as int) =~= Seq::<EntryProbe>::empty());
                assert(file_entries_view(result@) + Seq::<FileEntryView>::empty()
                    =~= file_entries_view(result@));
            }
            Ok(result)
        },
    }
}

/// Map the host's recursive directory creation outcome: success when the host
/// reported none, the host's error text otherwise. The host call itself
/// succeeds when the directory already exists, which makes creation
/// idempotent.
pub fn create_dir_all(outcome: Option<String>) -> (r: Result<(), String>)
    ensures
        outcome is None ==> r is Ok,
        outcome matches Some(e) ==> r is Err && r->Err_0@ == create_dir_msg(e@),
{
    match outcome {
        None => Ok(()),
        Some(e) => Err(concat_strs("Failed to create directory: ", e.as_str())),
    }
}

} // verus!
