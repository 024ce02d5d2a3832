use std::io::Cursor;

use cra::ArcEntry;
use cra::ArcFormat;
use cra::ArcReader;
use cra::ArcWriter;

/// A 7z container holding a file, a directory and an empty file stored
/// without a content stream, as archiving tools lay them out.
fn sample_7z_bytes() -> Vec<u8> {
    let mut sink = Cursor::new(Vec::new());
    let mut sz = sevenz_rust::SevenZWriter::new(&mut sink).unwrap();
    let mut file = sevenz_rust::SevenZArchiveEntry::default();
    file.name = "hmmm".to_string();
    sz.push_archive_entry(file, Some(&b"twoja stara\n"[..])).unwrap();
    let mut dir = sevenz_rust::SevenZArchiveEntry::default();
    dir.name = "uwu".to_string();
    dir.is_directory = true;
    sz.push_archive_entry::<&[u8]>(dir, None).unwrap();
    let mut empty = sevenz_rust::SevenZArchiveEntry::default();
    empty.name = "uwu/owo".to_string();
    sz.push_archive_entry::<&[u8]>(empty, None).unwrap();
    sz.finish().unwrap();
    sink.into_inner()
}

#[test]
fn test_7z_reader() {
    let bytes = sample_7z_bytes();
    let reader = ArcReader::new(&bytes);
    assert!(reader.is_ok());
    let reader = reader.unwrap();
    assert_eq!(reader.format(), ArcFormat::Sevenz);
    assert_eq!(
        reader.entries(),
        &vec![
            ArcEntry::File("hmmm".into(), "twoja stara\n".into()),
            ArcEntry::Directory("uwu".into()),
            ArcEntry::File("uwu/owo".into(), vec![]),
        ]
    )
}

#[test]
fn test_7z_writer() {
    let mut writer = ArcWriter::new(ArcFormat::Sevenz);
    writer.push(ArcEntry::File("hmmm".into(), "twoja stara\n".into()));
    writer.push(ArcEntry::Directory("uwu".into()));
    writer.push(ArcEntry::File("uwu/owo".into(), vec![]));
    writer.archive().unwrap();
}
