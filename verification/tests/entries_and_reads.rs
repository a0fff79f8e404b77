//! Directory-entry name decoding and chunked read accumulation.

use sdmmc::entry::LsEntry;
use sdmmc::file::append_chunk;
use sdmmc::status::Error;

#[test]
fn name_stops_at_first_nul() {
    let e = LsEntry::new(b"hello\0garbage".to_vec());
    assert_eq!(e.name().unwrap(), "hello");
}

#[test]
fn name_without_nul_takes_everything() {
    let e = LsEntry::new(b"abc".to_vec());
    assert_eq!(e.name().unwrap(), "abc");
}

#[test]
fn empty_record_gives_empty_name() {
    let e = LsEntry::new(Vec::new());
    assert_eq!(e.name().unwrap(), "");
    let e2 = LsEntry::new(b"\0\0\0".to_vec());
    assert_eq!(e2.name().unwrap(), "");
}

#[test]
fn dot_entries_decode() {
    let dot = LsEntry::new(b".\0".to_vec());
    assert_eq!(dot.name().unwrap(), ".");
    let dotdot = LsEntry::new(b"..\0".to_vec());
    assert_eq!(dotdot.name().unwrap(), "..");
}

#[test]
fn multibyte_name_decodes() {
    let mut raw = "héllo".as_bytes().to_vec();
    raw.push(0);
    let e = LsEntry::new(raw);
    assert_eq!(e.name().unwrap(), "héllo");
}

#[test]
fn invalid_bytes_give_decode_error() {
    let e = LsEntry::new(vec![0xff, 0xfe, 0x00]);
    assert_eq!(e.name(), Err(Error::DecodeFailed));
}

#[test]
fn invalid_bytes_after_nul_are_ignored() {
    let e = LsEntry::new(vec![b'o', b'k', 0x00, 0xff, 0xfe]);
    assert_eq!(e.name().unwrap(), "ok");
}

#[test]
fn append_chunk_takes_a_prefix() {
    let mut acc = vec![1u8, 2];
    append_chunk(&mut acc, &[3, 4, 5, 6], 3);
    assert_eq!(acc, vec![1, 2, 3, 4, 5]);
}

#[test]
fn append_chunk_of_zero_changes_nothing() {
    let mut acc = vec![9u8];
    append_chunk(&mut acc, &[1, 2, 3], 0);
    assert_eq!(acc, vec![9]);
}

#[test]
fn append_chunk_accumulates_a_stream() {
    // Reading a file to its end: full chunks, then a short one, then zero.
    let mut acc: Vec<u8> = Vec::new();
    append_chunk(&mut acc, b"writ", 4);
    append_chunk(&mut acc, b"e\0\0\0", 1);
    append_chunk(&mut acc, b"", 0);
    assert_eq!(acc, b"write".to_vec());
}
