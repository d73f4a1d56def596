//! The content hash of an embedded file: the SHA-256 digest of its bytes,
//! written as upper-case hexadecimal.

use vstd::prelude::*;
use sha2::Digest;
use crate::asset::{FileView, ViteFile};

verus! {

/// The SHA-256 digest of a sequence of bytes.
pub uninterp spec fn sha256(content: Seq<u8>) -> Seq<u8>;

/// Calls `sha2::Sha256::digest`, which feeds the whole input to a fresh
/// hasher and finalizes it. The contract names the digest and claims its
/// length: the hasher's output size is 32 bytes.
#[verifier::external_body]
fn sha256_digest(content: &[u8]) -> (digest: Vec<u8>)
    ensures
        digest@ == sha256(content@),
        digest@.len() == 32,
{
    sha2::Sha256::digest(content).to_vec()
}

/// The sixteen hexadecimal digits, upper case.
pub open spec fn hex_digits() -> Seq<char> {
    seq!['0', '1', '2', '3', '4', '5', '6', '7', '8', '9', 'A', 'B', 'C', 'D', 'E', 'F']
}

/// The two digits of one byte, high half first.
pub open spec fn hex_of_byte(byte: u8) -> Seq<char> {
    seq![hex_digits()[byte as int / 16], hex_digits()[byte as int % 16]]
}

/// Bytes written as upper-case hexadecimal, two digits each.
pub open spec fn upper_hex(bytes: Seq<u8>) -> Seq<char>
    decreases bytes.len(),
{
    if bytes.len() == 0 {
        Seq::empty()
    } else {
        upper_hex(bytes.drop_last()) + hex_of_byte(bytes.last())
    }
}

/// Hexadecimal text is twice as long as the bytes it stands for.
pub proof fn upper_hex_len(bytes: Seq<u8>)
    ensures
        upper_hex(bytes).len() == 2 * bytes.len(),
    decreases bytes.len(),
{
    if bytes.len() > 0 {
        upper_hex_len(bytes.drop_last());
    }
}

fn hex_digit(value: u8) -> (digit: &'static str)
    requires
        value < 16,
    ensures
        digit@ == seq![hex_digits()[value as int]],
{
    proof {
        reveal_strlit("0");
        reveal_strlit("1");
        reveal_strlit("2");
        reveal_strlit("3");
        reveal_strlit("4");
        reveal_strlit("5");
        reveal_strlit("6");
        reveal_strlit("7");
        reveal_strlit("8");
        reveal_strlit("9");
        reveal_strlit("A");
        reveal_strlit("B");
        reveal_strlit("C");
        reveal_strlit("D");
        reveal_strlit("E");
        reveal_strlit("F");
    }
    let digit = match value {
        0 => "0",
        1 => "1",
        2 => "2",
        3 => "3",
        4 => "4",
        5 => "5",
        6 => "6",
        7 => "7",
        8 => "8",
        9 => "9",
        10 => "A",
        11 => "B",
        12 => "C",
        13 => "D",
        14 => "E",
        _ => "F",
    };
    assert(digit@ =~= seq![hex_digits()[value as int]]);
    digit
}

/// Writes bytes as upper-case hexadecimal.
pub fn to_upper_hex(bytes: &[u8]) -> (text: String)
    ensures
        text@ == upper_hex(bytes@),
{
    let mut text = String::new();
    let mut i: usize = 0;
    while i < bytes.len()
        invariant
            i <= bytes@.len(),
            text@ == upper_hex(bytes@.subrange(0, i as int)),
        decreases bytes@.len() - i,
    {
        let byte = bytes[i];
        text.append(hex_digit(byte / 16));
        text.append(hex_digit(byte % 16));
        proof {
            let done = bytes@.subrange(0, i as int + 1);
            assert(done.drop_last() =~= bytes@.subrange(0, i as int));
            assert(done.last() == byte);
            assert(text@ =~= upper_hex(done));
        }
        i += 1;
    }
    assert(bytes@.subrange(0, i as int) =~= bytes@);
    text
}

/// The content hash of a file, as a sequence of characters.
pub open spec fn content_hash(content: Seq<u8>) -> Seq<char> {
    upper_hex(sha256(content))
}

/// The content hash of `content`: its SHA-256 digest in upper-case
/// hexadecimal, 64 digits.
pub fn get_content_hash(content: &[u8]) -> (hash: String)
    ensures
        hash@ == content_hash(content@),
        hash@.len() == 64,
{
    let digest = sha256_digest(content);
    proof {
        upper_hex_len(digest@);
    }
    to_upper_hex(digest.as_slice())
}

impl ViteFile {
    /// The same file with the hash of its content, which replaces any hash
    /// that it had.
    pub fn with_content_hash(self) -> (file: ViteFile)
        ensures
            file@ == (FileView { content_hash: Some(content_hash(self@.bytes)), ..self@ }),
            file.well_formed() == self.well_formed(),
    {
        let hash = get_content_hash(self.bytes.as_slice());
        ViteFile {
            bytes: self.bytes,
            last_modified: self.last_modified,
            content_type: self.content_type,
            content_length: self.content_length,
            content_hash: Some(hash),
        }
    }
}

} // verus!
