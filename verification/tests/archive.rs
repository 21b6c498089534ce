use std::io::{Cursor, Write};
use vortex_ais::archive::{is_directory_entry, EntryKind, UpdateArchive};
use vortex_ais::update::locate_new_binary;
use zip::write::SimpleFileOptions;
use zip::ZipWriter;

fn sample_zip() -> Vec<u8> {
    let mut w = ZipWriter::new(Cursor::new(Vec::new()));
    let opts = SimpleFileOptions::default();
    w.add_directory("src/", opts).unwrap();
    w.start_file("src/style.css", opts.compression_method(zip::CompressionMethod::Stored)).unwrap();
    w.write_all(b"body{}").unwrap();
    w.start_file("vortex.exe", opts.compression_method(zip::CompressionMethod::Deflated)).unwrap();
    w.write_all(&[7u8; 300]).unwrap();
    w.finish().unwrap().into_inner()
}

fn file_of(a: &mut UpdateArchive, i: usize) -> (String, Vec<u8>) {
    match a.entry_kind(i) {
        Ok(EntryKind::File(f)) => {
            let read = a.entry_contents(i);
            assert!(read.outcome.is_ok());
            (f, read.bytes)
        }
        _ => panic!("expected a file"),
    }
}

#[test]
fn archive_entries_are_read_in_order() {
    let mut a = match UpdateArchive::open(sample_zip()) {
        Ok(a) => a,
        Err(e) => panic!("{}", e.message),
    };
    assert_eq!(a.len(), 3);
    match a.entry_kind(0) {
        Ok(EntryKind::Directory(d)) => assert_eq!(d, "src/"),
        _ => panic!("expected a directory"),
    }
    assert_eq!(file_of(&mut a, 1), ("src/style.css".to_string(), b"body{}".to_vec()));
    assert_eq!(file_of(&mut a, 2), ("vortex.exe".to_string(), vec![7u8; 300]));
    // asking again gives the same entry
    assert_eq!(file_of(&mut a, 1), ("src/style.css".to_string(), b"body{}".to_vec()));
}

#[test]
fn damaged_entry_keeps_bytes_read_before_failure() {
    let mut data = sample_zip();
    // flip a byte of the stored css contents so that its checksum fails
    let pos = data.windows(6).position(|w| w == b"body{}").unwrap();
    data[pos] = b'B';
    let mut a = match UpdateArchive::open(data) {
        Ok(a) => a,
        Err(e) => panic!("{}", e.message),
    };
    match a.entry_kind(1) {
        Ok(EntryKind::File(f)) => assert_eq!(f, "src/style.css"),
        _ => panic!("expected a file"),
    }
    let read = a.entry_contents(1);
    assert!(read.outcome.is_err());
    assert_eq!(read.bytes, b"Body{}".to_vec());
}

#[test]
fn garbage_is_no_archive() {
    match UpdateArchive::open(b"definitely not a zip".to_vec()) {
        Ok(_) => panic!("opened garbage"),
        Err(e) => assert!(e.message.starts_with("invalid Zip archive")),
    }
}

#[test]
fn directory_entries_end_with_slash() {
    assert!(is_directory_entry("a/"));
    assert!(!is_directory_entry("a"));
    assert!(!is_directory_entry(""));
}

#[test]
fn new_binary_is_found_first() {
    let names = vec!["src".to_string(), "vortex.exe".to_string(), "vortex.exe".to_string()];
    assert_eq!(locate_new_binary(&names), Ok(1));
    let names = vec!["src".to_string()];
    assert_eq!(locate_new_binary(&names), Err("vortex.exe not found".to_string()));
}
