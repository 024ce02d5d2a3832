use cra::ArcEntry;
use cra::ArcFormat;
use cra::ArcReader;
use cra::ArcWriter;

/// Builds one 512-byte ustar header block, as archiving tools write them.
fn tar_header(name: &str, size: u64, typeflag: u8) -> Vec<u8> {
    let mut h = vec![0u8; 512];
    h[..name.len()].copy_from_slice(name.as_bytes());
    h[100..107].copy_from_slice(b"0000755");
    h[108..115].copy_from_slice(b"0000000");
    h[116..123].copy_from_slice(b"0000000");
    let size_field = format!("{:011o}", size);
    h[124..135].copy_from_slice(size_field.as_bytes());
    h[136..147].copy_from_slice(b"00000000000");
    for b in h.iter_mut().take(156).skip(148) {
        *b = b' ';
    }
    h[156] = typeflag;
    h[257..262].copy_from_slice(b"ustar");
    h[263] = b'0';
    h[264] = b'0';
    let sum: u32 = h.iter().map(|&b| b as u32).sum();
    let cksum_field = format!("{:06o}\0 ", sum);
    h[148..156].copy_from_slice(cksum_field.as_bytes());
    h
}

/// A tar container holding a file, a directory with a stored trailing
/// slash, and an empty file, as an archiving tool lays them out.
fn sample_tar_bytes() -> Vec<u8> {
    let mut bytes = Vec::new();
    bytes.extend_from_slice(&tar_header("hmmm", 12, b'0'));
    let mut content = b"twoja stara\n".to_vec();
    content.resize(512, 0);
    bytes.extend_from_slice(&content);
    bytes.extend_from_slice(&tar_header("uwu/", 0, b'5'));
    bytes.extend_from_slice(&tar_header("uwu/owo", 0, b'0'));
    bytes.extend_from_slice(&[0u8; 1024]);
    bytes
}

#[test]
fn test_tar_reader() {
    let bytes = sample_tar_bytes();
    let reader = ArcReader::new(&bytes);
    assert!(reader.is_ok());
    let reader = reader.unwrap();
    assert_eq!(reader.format(), ArcFormat::Tar);
    assert_eq!(
        reader.entries(),
        &vec![
            ArcEntry::File("hmmm".into(), "twoja stara\n".into()),
            ArcEntry::Directory("uwu/".into()),
            ArcEntry::File("uwu/owo".into(), vec![]),
        ]
    );
}

#[test]
fn test_tar_writer() {
    let mut writer = ArcWriter::new(ArcFormat::Tar);
    writer.push(ArcEntry::File("hmmm".into(), "twoja stara\n".into()));
    writer.push(ArcEntry::Directory("uwu/".into()));
    writer.push(ArcEntry::File("uwu/owo".into(), vec![]));
    writer.archive().unwrap();
}
