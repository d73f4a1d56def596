use vite_rs::asset::ViteFile;
use vite_rs::hash::{get_content_hash, to_upper_hex};

#[test]
fn hash_of_empty_content() {
    assert_eq!(
        get_content_hash(b""),
        "E3B0C44298FC1C149AFBF4C8996FB92427AE41E4649B934CA495991B7852B855"
    );
}

#[test]
fn hash_of_abc() {
    assert_eq!(
        get_content_hash(b"abc"),
        "BA7816BF8F01CFEA414140DE5DAE2223B00361A396177A9CB410FF61F20015AD"
    );
}

#[test]
fn hash_is_not_the_content() {
    let hash = get_content_hash(b"test");
    assert_eq!(hash.len(), 64);
    assert_ne!(hash.as_bytes(), b"test");
    assert_eq!(hash, "9F86D081884C7D659A2FEAA0C55AD015A3BF4F1B2B0B822CD15D6C15B0F00A08");
    assert_eq!(hash, hash.to_uppercase());
}

#[test]
fn bytes_are_written_as_upper_case_hex() {
    assert_eq!(to_upper_hex(&[]), "");
    assert_eq!(to_upper_hex(&[0x00]), "00");
    assert_eq!(to_upper_hex(&[0x0a, 0x14, 0x1e]), "0A141E");
    assert_eq!(to_upper_hex(&[0xff, 0x9c, 0x01, 0xab]), "FF9C01AB");
}

#[test]
fn file_gets_the_hash_of_its_content() {
    let file = ViteFile::from_bytes(b"abc".to_vec(), "text/plain".to_string()).with_content_hash();
    assert_eq!(
        file.content_hash.as_deref(),
        Some("BA7816BF8F01CFEA414140DE5DAE2223B00361A396177A9CB410FF61F20015AD")
    );
    assert_eq!(file.bytes, b"abc".to_vec());
    assert_eq!(file.content_length, 3);
    assert_eq!(file.content_type, "text/plain");
    let copy = file.duplicate();
    assert_eq!(copy.content_hash, file.content_hash);
    assert_eq!(copy.bytes, file.bytes);
}
