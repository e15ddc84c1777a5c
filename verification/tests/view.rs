use mmapfile::view::IoError;
use mmapfile::view::MmapFile;
use mmapfile::view::MmapMutFile;
use mmapfile::DEFAULT_SIZE;

#[test]
fn open_exposes_the_given_bytes() {
    let file = MmapFile::open(vec![1u8, 2, 3]);
    assert_eq!(file.len(), 3);
    assert!(!file.is_empty());
    assert_eq!(file.as_bytes(), &[1u8, 2, 3][..]);
}

#[test]
fn open_empty_file() {
    let file = MmapFile::open(Vec::new());
    assert_eq!(file.len(), 0);
    assert!(file.is_empty());
    assert_eq!(file.as_bytes(), &[][..] as &[u8]);
}

#[test]
fn create_with_size_is_zero_filled() {
    let file = MmapMutFile::create_with_size(5);
    assert_eq!(file.len(), 5);
    assert!(!file.is_empty());
    assert_eq!(file.as_bytes(), &[0u8; 5][..]);
}

#[test]
fn create_uses_the_default_size() {
    let file = MmapMutFile::create();
    assert_eq!(file.len(), DEFAULT_SIZE);
    assert_eq!(file.len(), 8192);
    assert!(file.as_bytes().iter().all(|b| *b == 0));
}

#[test]
fn write_at_splices_and_keeps_the_rest() {
    let mut file = MmapMutFile::create_with_size(6);
    file.write_at(2, b"xy");
    assert_eq!(file.as_bytes(), &[0u8, 0, b'x', b'y', 0, 0][..]);
    assert_eq!(file.len(), 6);
}

#[test]
fn write_at_empty_chunk_is_a_no_op() {
    let mut file = MmapMutFile::create_with_size(3);
    file.write_at(1, b"z");
    file.write_at(2, b"");
    assert_eq!(file.as_bytes(), &[0u8, b'z', 0][..]);
}

#[test]
fn io_error_keeps_its_message() {
    let error = IoError::new(String::from("no such file"));
    assert_eq!(error.message(), "no such file");
}
