use cra::detect;
use cra::ArcEntry;
use cra::ArcError;
use cra::ArcFormat;
use cra::ArcReader;
use cra::ArcWriter;

fn scenario_entries() -> Vec<ArcEntry> {
    vec![
        ArcEntry::File("hmmm".into(), "twoja stara\n".into()),
        ArcEntry::Directory("uwu".into()),
        ArcEntry::File("uwu/owo".into(), vec![]),
    ]
}

#[test]
fn round_trip_zip() {
    let mut writer = ArcWriter::new(ArcFormat::Zip);
    writer.extend(&scenario_entries());
    let bytes = writer.archive().unwrap();
    let reader = ArcReader::new(&bytes).unwrap();
    assert_eq!(reader.format(), ArcFormat::Zip);
    assert_eq!(
        reader.entries(),
        &vec![
            ArcEntry::File("hmmm".into(), "twoja stara\n".into()),
            ArcEntry::Directory("uwu/".into()),
            ArcEntry::File("uwu/owo".into(), vec![]),
        ]
    );
}

#[test]
fn round_trip_tar() {
    let mut writer = ArcWriter::new(ArcFormat::Tar);
    writer.extend(&scenario_entries());
    let bytes = writer.archive().unwrap();
    let reader = ArcReader::new(&bytes).unwrap();
    assert_eq!(reader.format(), ArcFormat::Tar);
    assert_eq!(reader.entries(), &scenario_entries());
}

#[test]
fn round_trip_sevenz() {
    let mut writer = ArcWriter::new(ArcFormat::Sevenz);
    writer.extend(&scenario_entries());
    let bytes = writer.archive().unwrap();
    let reader = ArcReader::new(&bytes).unwrap();
    assert_eq!(reader.format(), ArcFormat::Sevenz);
    assert_eq!(
        reader.entries(),
        &vec![
            ArcEntry::File("hmmm".into(), "twoja stara\n".into()),
            ArcEntry::File("uwu/owo".into(), vec![]),
            ArcEntry::Directory("uwu".into()),
        ]
    );
}

#[test]
fn detection_of_each_format() {
    for format in [ArcFormat::Zip, ArcFormat::Tar, ArcFormat::Sevenz] {
        let mut writer = ArcWriter::new(format);
        writer.push(ArcEntry::File("hello".into(), b"content".to_vec()));
        let bytes = writer.archive().unwrap();
        assert_eq!(detect(&bytes).unwrap(), format);
    }
}

#[test]
fn detection_unrecognized() {
    let noise = vec![0u8; 600];
    assert!(matches!(detect(&noise), Err(ArcError::UnrecognizedFormat)));
    assert!(matches!(
        ArcReader::new(&noise),
        Err(ArcError::UnrecognizedFormat)
    ));
    let text = b"hello there, no archive in sight";
    assert!(matches!(detect(text), Err(ArcError::UnrecognizedFormat)));
}

#[test]
fn malformed_containers_surface_codec_errors() {
    let mut zipish = b"PK\x03\x04".to_vec();
    zipish.resize(64, 0xAA);
    assert!(matches!(ArcReader::new(&zipish), Err(ArcError::ZipError(_))));
    let mut sevenish = vec![0x37, 0x7A, 0xBC, 0xAF, 0x27, 0x1C];
    sevenish.resize(64, 0);
    assert!(matches!(
        ArcReader::new(&sevenish),
        Err(ArcError::SevenzError(_))
    ));
    let mut tarish = vec![0u8; 600];
    tarish[0] = b'x';
    tarish[257..262].copy_from_slice(b"ustar");
    assert!(matches!(ArcReader::new(&tarish), Err(ArcError::IoError(_))));
}

#[test]
fn zip_rejects_duplicate_stored_names() {
    let mut writer = ArcWriter::new(ArcFormat::Zip);
    writer.push(ArcEntry::File("same".into(), b"1".to_vec()));
    writer.push(ArcEntry::File("same".into(), b"2".to_vec()));
    assert!(matches!(writer.archive(), Err(ArcError::ZipError(_))));
    let mut writer = ArcWriter::new(ArcFormat::Zip);
    writer.push(ArcEntry::Directory("clash".into()));
    writer.push(ArcEntry::File("clash/".into(), vec![]));
    assert!(matches!(writer.archive(), Err(ArcError::ZipError(_))));
}

#[test]
fn archive_is_structurally_idempotent() {
    let mut writer = ArcWriter::new(ArcFormat::Zip);
    writer.extend(&scenario_entries());
    let first = writer.archive().unwrap();
    let second = writer.archive().unwrap();
    let r1 = ArcReader::new(&first).unwrap();
    let r2 = ArcReader::new(&second).unwrap();
    assert_eq!(r1.format(), r2.format());
    assert_eq!(r1.entries(), r2.entries());
}

#[test]
fn append_only_accumulation() {
    let a = ArcEntry::File("a".into(), b"1".to_vec());
    let b = ArcEntry::File("b".into(), b"2".to_vec());
    let c = ArcEntry::File("c".into(), b"3".to_vec());
    let d = ArcEntry::Directory("d".into());
    let mut writer = ArcWriter::new(ArcFormat::Tar);
    writer.push(a.clone());
    writer.push(b.clone());
    let bytes = writer.archive().unwrap();
    let reader = ArcReader::new(&bytes).unwrap();
    assert_eq!(reader.entries(), &vec![a.clone(), b.clone()]);
    writer.extend(&[c.clone(), d.clone()]);
    let bytes = writer.archive().unwrap();
    let reader = ArcReader::new(&bytes).unwrap();
    assert_eq!(reader.entries(), &vec![a, b, c, d]);
}

#[test]
fn empty_file_stays_file() {
    for format in [ArcFormat::Zip, ArcFormat::Tar, ArcFormat::Sevenz] {
        let mut writer = ArcWriter::new(format);
        writer.push(ArcEntry::File("empty".into(), vec![]));
        let bytes = writer.archive().unwrap();
        let reader = ArcReader::new(&bytes).unwrap();
        assert_eq!(
            reader.entries(),
            &vec![ArcEntry::File("empty".into(), vec![])]
        );
    }
}

#[test]
fn zip_marks_directories_by_trailing_separator() {
    let mut writer = ArcWriter::new(ArcFormat::Zip);
    writer.push(ArcEntry::File("trail/".into(), b"x".to_vec()));
    let bytes = writer.archive().unwrap();
    let reader = ArcReader::new(&bytes).unwrap();
    assert_eq!(reader.entries(), &vec![ArcEntry::Directory("trail/".into())]);
}

#[test]
fn sequential_consumption_moves_forward_only() {
    let mut writer = ArcWriter::new(ArcFormat::Zip);
    writer.extend(&scenario_entries());
    let bytes = writer.archive().unwrap();
    let mut reader = ArcReader::new(&bytes).unwrap();
    let first = reader.next().unwrap();
    assert_eq!(first, ArcEntry::File("hmmm".into(), "twoja stara\n".into()));
    assert_eq!(reader.next().unwrap(), ArcEntry::Directory("uwu/".into()));
    assert_eq!(reader.next().unwrap(), ArcEntry::File("uwu/owo".into(), vec![]));
    assert!(reader.next().is_none());
    assert!(reader.next().is_none());
    assert_eq!(reader.entries().len(), 3);
}
