//! Served files and the table that maps request keys to them.

use vstd::prelude::*;

verus! {

/// One servable file: its bytes and the metadata sent along with them.
#[derive(Debug)]
pub struct ViteFile {
    /// The file's content.
    pub bytes: Vec<u8>,
    /// The modification time as an HTTP date, where the source has one.
    pub last_modified: Option<String>,
    /// The MIME type, inferred from the file's extension.
    pub content_type: String,
    /// The byte length of the content.
    pub content_length: u64,
    /// A hash of the content: strong in production, a volatile token from
    /// the dev server in development; absent where none was computed.
    pub content_hash: Option<String>,
}

/// The mathematical value of a `ViteFile`.
pub struct FileView {
    pub bytes: Seq<u8>,
    pub last_modified: Option<Seq<char>>,
    pub content_type: Seq<char>,
    pub content_length: nat,
    pub content_hash: Option<Seq<char>>,
}

/// The characters of an optional string.
pub open spec fn text_of(value: Option<String>) -> Option<Seq<char>> {
    match value {
        Some(text) => Some(text@),
        None => None,
    }
}

/// A copy of an optional string.
pub fn copy_text(value: &Option<String>) -> (copy: Option<String>)
    ensures
        text_of(copy) == text_of(*value),
{
    match value {
        Some(text) => Some(text.clone()),
        None => None,
    }
}

/// A copy of a byte vector.
pub fn copy_bytes(bytes: &Vec<u8>) -> (copy: Vec<u8>)
    ensures
        copy@ == bytes@,
{
    let mut copy: Vec<u8> = Vec::new();
    let mut i: usize = 0;
    while i < bytes.len()
        invariant
            i <= bytes.len(),
            copy@ == bytes@.subrange(0, i as int),
        decreases bytes.len() - i,
    {
        copy.push(bytes[i]);
        i += 1;
    }
    copy
}

impl View for ViteFile {
    type V = FileView;

    open spec fn view(&self) -> FileView {
        FileView {
            bytes: self.bytes@,
            last_modified: text_of(self.last_modified),
            content_type: self.content_type@,
            content_length: self.content_length as nat,
            content_hash: text_of(self.content_hash),
        }
    }
}

impl ViteFile {
    /// The recorded length is the length of the content.
    pub open spec fn well_formed(&self) -> bool {
        self.content_length as nat == self.bytes@.len()
    }

    /// A file with the given content and type, no modification time and no
    /// hash; its length is taken from the content.
    pub fn from_bytes(bytes: Vec<u8>, content_type: String) -> (file: ViteFile)
        ensures
            file.well_formed(),
            file@ == (FileView {
                bytes: bytes@,
                last_modified: None,
                content_type: content_type@,
                content_length: bytes@.len(),
                content_hash: None,
            }),
    {
        let content_length = bytes.len() as u64;
        ViteFile { bytes, last_modified: None, content_type, content_length, content_hash: None }
    }

    /// A copy with the same value.
    pub fn duplicate(&self) -> (copy: ViteFile)
        ensures
            copy@ == self@,
            copy.well_formed() == self.well_formed(),
    {
        ViteFile {
            bytes: copy_bytes(&self.bytes),
            last_modified: copy_text(&self.last_modified),
            content_type: self.content_type.clone(),
            content_length: self.content_length,
            content_hash: copy_text(&self.content_hash),
        }
    }
}

/// The value of an optional file.
pub open spec fn file_value(file: Option<ViteFile>) -> Option<FileView> {
    match file {
        Some(found) => Some(found@),
        None => None,
    }
}

/// A source of files by key. Implemented by the embedded table, and by
/// whatever fetches files from a live dev server.
pub trait GetFromVite {
    /// Whether a lookup of `key` may produce `file`. A source whose files
    /// never change admits one outcome per key; a source that asks a live
    /// server admits whatever the server may send, which is the default.
    open spec fn may_yield(&self, key: Seq<char>, file: Option<FileView>) -> bool {
        true
    }

    /// The file stored under `file_path`, if there is one.
    fn get(&self, file_path: &str) -> (file: Option<ViteFile>)
        ensures
            self.may_yield(file_path@, file_value(file)),
    ;
}

} // verus!
