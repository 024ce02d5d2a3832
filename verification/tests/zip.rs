use std::io::Cursor;
use std::io::Write;

use cra::ArcEntry;
use cra::ArcFormat;
use cra::ArcReader;
use cra::ArcWriter;

/// A zip container holding a directory, an empty file and a file with
/// content, produced with the zip codec directly, as archiving tools write
/// them.
fn sample_zip_bytes() -> Vec<u8> {
    let mut zw = zip::ZipWriter::new(Cursor::new(Vec::new()));
    let options = zip::write::SimpleFileOptions::default();
    zw.add_directory("uwu/", options).unwrap();
    zw.start_file("uwu/owo", options).unwrap();
    zw.start_file("hmmm", options).unwrap();
    zw.write_all(b"twoja stara\n").unwrap();
    zw.finish().unwrap().into_inner()
}

#[test]
fn test_zip_reader() {
    let bytes = sample_zip_bytes();
    let reader = ArcReader::new(&bytes);
    assert!(reader.is_ok());
    let reader = reader.unwrap();
    assert_eq!(reader.format(), ArcFormat::Zip);
    assert_eq!(
        reader.entries(),
        &vec![
            ArcEntry::Directory("uwu/".into()),
            ArcEntry::File("uwu/owo".into(), vec![]),
            ArcEntry::File("hmmm".into(), "twoja stara\n".into())
        ]
    );
}

#[test]
fn test_zip_writer() {
    let mut writer = ArcWriter::new(ArcFormat::Zip);
    writer.push(ArcEntry::Directory("uwu/".into()));
    writer.push(ArcEntry::File("uwu/owo".into(), vec![]));
    writer.push(ArcEntry::File("hmmm".into(), "twoja stara\n".into()));
    writer.archive().unwrap();
}
