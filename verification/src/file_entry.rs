//! One file of the build output before it is embedded: its key, where it
//! lies on disk, and the metadata that will be served with it.

use vstd::prelude::*;
use std::fmt::Write;
use crate::asset::{text_of, FileView, ViteFile};
use crate::hash::{content_hash, get_content_hash};
use crate::text::slice_text;

verus! {

/// The text that a UTC timestamp, in seconds since the epoch, is written
/// as under a `strftime` format; `None` where the timestamp is out of the
/// calendar's range or the format is not valid.
pub uninterp spec fn formatted_timestamp(secs: int, format: Seq<char>) -> Option<Seq<char>>;

/// The MIME type that is guessed for a file extension; the type of
/// arbitrary bytes where the extension is empty or unknown.
pub uninterp spec fn mime_type_of_extension(extension: Seq<char>) -> Seq<char>;

/// Calls `chrono::DateTime::from_timestamp` with no nanoseconds and writes
/// the date with `DateTime::format`. The first returns nothing for a
/// number of seconds out of range; writing fails on a format that is not
/// valid. Either gives `None` here. The contract names the text.
#[verifier::external_body]
fn format_timestamp(secs: i64, format: &str) -> (text: Option<String>)
    ensures
        text_of(text) == formatted_timestamp(secs as int, format@),
{
    let mut text = String::new();
    match chrono::DateTime::from_timestamp(secs, 0) {
        Some(time) => match write!(text, "{}", time.format(format)) {
            Ok(()) => Some(text),
            Err(_) => None,
        },
        None => None,
    }
}

/// Calls `mime_guess::from_ext`, takes the first guess or, where there is
/// none, `application/octet-stream`, and writes it out. The contract names
/// the text.
#[verifier::external_body]
fn guess_mime_type(extension: &str) -> (mime: String)
    ensures
        mime@ == mime_type_of_extension(extension@),
{
    mime_guess::from_ext(extension).first_or_octet_stream().to_string()
}

/// Calls `std::path::Path::extension` and hands the extension back where
/// it is valid Unicode. What counts as the file name of a path depends on
/// the platform, so nothing is claimed of the result.
#[verifier::external_body]
fn path_extension(path: &str) -> (extension: Option<String>) {
    std::path::Path::new(path).extension().and_then(|e| e.to_str()).map(|e| e.to_owned())
}

/// Why a file entry could not be made or embedded.
#[derive(Clone, Copy, Debug, PartialEq, Eq, Structural)]
pub enum FileEntryError {
    /// The modification time cannot be written as a date.
    UnsupportedTimestamp,
    /// The content handed in is not as long as the entry says.
    LengthMismatch,
}

/// A file of the build output.
#[derive(Debug)]
pub struct FileEntry {
    key: String,
    absolute_file_path: String,
    last_modified: Option<String>,
    content_type: String,
    content_length: u64,
}

/// The mathematical value of a `FileEntry`.
pub struct FileEntryView {
    pub key: Seq<char>,
    pub absolute_file_path: Seq<char>,
    pub last_modified: Option<Seq<char>>,
    pub content_type: Seq<char>,
    pub content_length: nat,
}

/// The format of an HTTP date.
pub open spec fn http_date_format() -> Seq<char> {
    "%a, %d %b %Y %H:%M:%S GMT"@
}

/// The `Last-Modified` value of a modification time in seconds since the
/// epoch: absent where there is no time, and no value at all where the
/// time cannot be written as a date.
pub open spec fn http_date(modified: Option<u64>) -> Option<Option<Seq<char>>> {
    match modified {
        None => Some(None),
        Some(secs) => if secs > i64::MAX {
            None
        } else {
            match formatted_timestamp(secs as int, http_date_format()) {
                Some(text) => Some(Some(text)),
                None => None,
            }
        },
    }
}

/// The content type of a file whose path has the given extension, or none.
pub open spec fn content_type_of(extension: Option<Seq<char>>) -> Seq<char> {
    match extension {
        Some(extension) => mime_type_of_extension(extension),
        None => mime_type_of_extension(Seq::empty()),
    }
}

impl View for FileEntry {
    type V = FileEntryView;

    closed spec fn view(&self) -> FileEntryView {
        FileEntryView {
            key: self.key@,
            absolute_file_path: self.absolute_file_path@,
            last_modified: text_of(self.last_modified),
            content_type: self.content_type@,
            content_length: self.content_length as nat,
        }
    }
}

impl FileEntry {
    /// An entry for the file at `absolute_file_path`, given the extension
    /// of that path, the file's modification time in seconds since the
    /// epoch, and its length. Fails only where the modification time
    /// cannot be written as a date.
    pub fn with_extension(
        key: String,
        absolute_file_path: String,
        extension: Option<&str>,
        modified: Option<u64>,
        content_length: u64,
    ) -> (entry: Result<FileEntry, FileEntryError>)
        ensures
            match entry {
                Ok(entry) => http_date(modified) is Some && entry@ == (FileEntryView {
                    key: key@,
                    absolute_file_path: absolute_file_path@,
                    last_modified: http_date(modified)->0,
                    content_type: content_type_of(slice_text(extension)),
                    content_length: content_length as nat,
                }),
                Err(error) => error == FileEntryError::UnsupportedTimestamp && http_date(
                    modified,
                ) is None,
            },
    {
        let last_modified = match modified {
            None => None,
            Some(secs) => {
                if secs > i64::MAX as u64 {
                    return Err(FileEntryError::UnsupportedTimestamp);
                }
                match format_timestamp(secs as i64, "%a, %d %b %Y %H:%M:%S GMT") {
                    Some(text) => Some(text),
                    None => {
                        return Err(FileEntryError::UnsupportedTimestamp);
                    },
                }
            },
        };
        let content_type = match extension {
            Some(extension) => guess_mime_type(extension),
            None => guess_mime_type(""),
        };
        proof {
            reveal_strlit("");
            assert(""@ =~= Seq::<char>::empty());
        }
        Ok(FileEntry { key, absolute_file_path, last_modified, content_type, content_length })
    }

    /// An entry for the file at `absolute_file_path`, given the file's
    /// modification time in seconds since the epoch and its length. The
    /// content type is guessed from the extension of the path. Fails only
    /// where the modification time cannot be written as a date.
    pub fn new(
        key: String,
        absolute_file_path: String,
        modified: Option<u64>,
        content_length: u64,
    ) -> (entry: Result<FileEntry, FileEntryError>)
        ensures
            match entry {
                Ok(entry) => http_date(modified) is Some && exists|extension: Option<Seq<char>>|
                    entry@ == (FileEntryView {
                        key: key@,
                        absolute_file_path: absolute_file_path@,
                        last_modified: http_date(modified)->0,
                        content_type: #[trigger] content_type_of(extension),
                        content_length: content_length as nat,
                    }),
                Err(error) => error == FileEntryError::UnsupportedTimestamp && http_date(
                    modified,
                ) is None,
            },
    {
        let extension = path_extension(absolute_file_path.as_str());
        let entry = match &extension {
            Some(extension) => FileEntry::with_extension(
                key,
                absolute_file_path,
                Some(extension.as_str()),
                modified,
                content_length,
            ),
            None => FileEntry::with_extension(
                key,
                absolute_file_path,
                None,
                modified,
                content_length,
            ),
        };
        proof {
            if entry is Ok {
                assert(entry->Ok_0@.content_type == content_type_of(text_of(extension)));
            }
        }
        entry
    }

    /// The key under which the file is looked up.
    pub fn match_key(&self) -> (key: &String)
        ensures
            key@ == self@.key,
    {
        &self.key
    }

    /// Where the file lies on disk.
    pub fn absolute_file_path(&self) -> (path: &String)
        ensures
            path@ == self@.absolute_file_path,
    {
        &self.absolute_file_path
    }

    /// The modification time as an HTTP date, if the file has one.
    pub fn last_modified(&self) -> (date: &Option<String>)
        ensures
            text_of(*date) == self@.last_modified,
    {
        &self.last_modified
    }

    /// The MIME type.
    pub fn content_type(&self) -> (mime: &String)
        ensures
            mime@ == self@.content_type,
    {
        &self.content_type
    }

    /// The length of the file in bytes.
    pub fn content_length(&self) -> (length: u64)
        ensures
            length as nat == self@.content_length,
    {
        self.content_length
    }

    /// The file as it is served, given its content. With `hashed` the
    /// content hash is computed and stored. Content of another length
    /// than the entry says is refused.
    pub fn into_file(self, bytes: Vec<u8>, hashed: bool) -> (file: Result<ViteFile, FileEntryError>)
        ensures
            match file {
                Ok(file) => bytes@.len() == self@.content_length && file.well_formed() && file@
                    == (FileView {
                    bytes: bytes@,
                    last_modified: self@.last_modified,
                    content_type: self@.content_type,
                    content_length: self@.content_length,
                    content_hash: if hashed {
                        Some(content_hash(bytes@))
                    } else {
                        None
                    },
                }),
                Err(error) => error == FileEntryError::LengthMismatch && bytes@.len()
                    != self@.content_length,
            },
    {
        if bytes.len() as u64 != self.content_length {
            return Err(FileEntryError::LengthMismatch);
        }
        let content_hash = if hashed {
            Some(get_content_hash(bytes.as_slice()))
        } else {
            None
        };
        Ok(
            ViteFile {
                bytes,
                last_modified: self.last_modified,
                content_type: self.content_type,
                content_length: self.content_length,
                content_hash,
            },
        )
    }
}

} // verus!
