use mca_reader::chunk::read_chunk_at;
use mca_reader::codec::decode_payload;
use mca_reader::layout::{parse_locations, parse_timestamps, read_be_u32, read_sector_offset};
use mca_reader::source::ByteSource;
use mca_reader::{CompressionMode, McaError, McaFile};
use nbt::{Blob, Value};

fn sample_blob() -> Blob {
    let mut b = Blob::new();
    b.insert("xPos", Value::Int(70000)).unwrap();
    b.insert("Status", Value::String("full".to_string())).unwrap();
    b
}

fn raw_bytes(b: &Blob) -> Vec<u8> {
    let mut out = Vec::new();
    b.to_writer(&mut out).unwrap();
    out
}

fn gzip_bytes(b: &Blob) -> Vec<u8> {
    let mut out = Vec::new();
    b.to_gzip_writer(&mut out).unwrap();
    out
}

fn zlib_bytes(b: &Blob) -> Vec<u8> {
    let mut out = Vec::new();
    b.to_zlib_writer(&mut out).unwrap();
    out
}

/// An empty region: both tables zero.
fn empty_region() -> Vec<u8> {
    vec![0u8; 8192]
}

/// Points slot (x, z) at `sector` and sets its timestamp.
fn set_entry(buf: &mut Vec<u8>, x: usize, z: usize, sector: u32, count: u8, timestamp: u32) {
    let i = (x * 32 + z) * 4;
    buf[i] = (sector >> 16) as u8;
    buf[i + 1] = (sector >> 8) as u8;
    buf[i + 2] = sector as u8;
    buf[i + 3] = count;
    buf[4096 + i..4096 + i + 4].copy_from_slice(&timestamp.to_be_bytes());
}

/// Appends one chunk, padded to a whole sector, at the end of `buf`.
fn push_chunk(buf: &mut Vec<u8>, tag: u8, payload: &[u8]) {
    let l = (payload.len() + 1) as u32;
    buf.extend_from_slice(&l.to_be_bytes());
    buf.push(tag);
    buf.extend_from_slice(payload);
    while buf.len() % 4096 != 0 {
        buf.push(0);
    }
}

#[test]
fn open_rejects_short_source() {
    assert!(matches!(McaFile::open(vec![0u8; 8191]), Err(McaError::TruncatedHeader)));
    assert!(matches!(McaFile::open(Vec::new()), Err(McaError::TruncatedHeader)));
    assert!(matches!(McaFile::open(vec![0u8; 4096]), Err(McaError::TruncatedHeader)));
}

#[test]
fn open_accepts_bare_header() {
    let mut f = McaFile::open(empty_region()).unwrap();
    assert!(f.is_open());
    assert_eq!(f.position(), 0);
    assert!(matches!(f.read_chunk(0, 0), Ok(None)));
    assert!(matches!(f.read_chunk(31, 31), Ok(None)));
}

#[test]
fn zero_entry_reads_as_absent_every_time() {
    let mut f = McaFile::open(empty_region()).unwrap();
    for _ in 0..3 {
        assert!(matches!(f.read_chunk(7, 9), Ok(None)));
        assert_eq!(f.position(), 0);
    }
}

#[test]
fn out_of_range_coordinates_fail() {
    let mut f = McaFile::open(empty_region()).unwrap();
    assert!(matches!(f.read_chunk(32, 0), Err(McaError::OutOfRange)));
    assert!(matches!(f.read_chunk(0, 32), Err(McaError::OutOfRange)));
    assert!(matches!(f.read_chunk(usize::MAX, 3), Err(McaError::OutOfRange)));
    assert_eq!(f.position(), 0);
    f.close();
    assert!(matches!(f.read_chunk(40, 0), Err(McaError::OutOfRange)));
}

#[test]
fn raw_chunk_round_trip() {
    let blob = sample_blob();
    let payload = raw_bytes(&blob);
    let mut buf = empty_region();
    set_entry(&mut buf, 5, 10, 2, 1, 1_600_000_000);
    push_chunk(&mut buf, 3, &payload);
    let mut f = McaFile::open(buf).unwrap();
    {
        let c = f.read_chunk(5, 10).unwrap().unwrap();
        assert_eq!(c.nbt, blob);
        assert_eq!(c.offset, 8192);
        assert_eq!(c.size as usize, payload.len() + 1);
        assert_eq!(c.timestamp, 1_600_000_000);
        assert_eq!(c.mode, CompressionMode::Raw);
    }
    assert_eq!(f.position(), 0);
    assert!(matches!(f.read_chunk(0, 0), Ok(None)));
}

#[test]
fn cached_chunk_is_returned_again() {
    let blob = sample_blob();
    let mut buf = empty_region();
    set_entry(&mut buf, 1, 2, 2, 1, 9);
    push_chunk(&mut buf, 3, &raw_bytes(&blob));
    let mut f = McaFile::open(buf).unwrap();
    let first = f.read_chunk(1, 2).unwrap().unwrap().nbt.clone();
    let second = f.read_chunk(1, 2).unwrap().unwrap().nbt.clone();
    assert_eq!(first, second);
    assert_eq!(first, blob);
    assert_eq!(f.position(), 0);
}

#[test]
fn gzip_and_zlib_chunks_decode() {
    let blob = sample_blob();
    let mut buf = empty_region();
    set_entry(&mut buf, 0, 1, 2, 1, 11);
    push_chunk(&mut buf, 1, &gzip_bytes(&blob));
    let second = (buf.len() / 4096) as u32;
    set_entry(&mut buf, 3, 4, second, 1, 12);
    push_chunk(&mut buf, 2, &zlib_bytes(&blob));
    let mut f = McaFile::open(buf).unwrap();
    {
        let c = f.read_chunk(0, 1).unwrap().unwrap();
        assert_eq!(c.mode, CompressionMode::GZip);
        assert_eq!(c.nbt, blob);
        assert_eq!(c.timestamp, 11);
    }
    let c = f.read_chunk(3, 4).unwrap().unwrap();
    assert_eq!(c.mode, CompressionMode::ZLib);
    assert_eq!(c.nbt, blob);
    assert_eq!(c.offset, second as u64 * 4096);
    assert_eq!(c.timestamp, 12);
}

#[test]
fn unknown_tag_fails_only_its_chunk() {
    let blob = sample_blob();
    let mut buf = empty_region();
    set_entry(&mut buf, 2, 2, 2, 1, 0);
    push_chunk(&mut buf, 7, &raw_bytes(&blob));
    let second = (buf.len() / 4096) as u32;
    set_entry(&mut buf, 2, 3, second, 1, 0);
    push_chunk(&mut buf, 3, &raw_bytes(&blob));
    let mut f = McaFile::open(buf).unwrap();
    assert!(matches!(f.read_chunk(2, 2), Err(McaError::UnknownCompressionMode(7))));
    assert_eq!(f.position(), 0);
    assert_eq!(f.read_chunk(2, 3).unwrap().unwrap().nbt, blob);
    assert!(matches!(f.read_chunk(2, 2), Err(McaError::UnknownCompressionMode(7))));
}

#[test]
fn chunk_past_end_is_io_error() {
    let mut buf = empty_region();
    set_entry(&mut buf, 4, 4, 3, 1, 0);
    let mut f = McaFile::open(buf).unwrap();
    assert!(matches!(f.read_chunk(4, 4), Err(McaError::Io)));
    assert_eq!(f.position(), 0);
}

#[test]
fn truncated_payload_is_io_error() {
    let mut buf = empty_region();
    set_entry(&mut buf, 0, 5, 2, 1, 0);
    buf.extend_from_slice(&100u32.to_be_bytes());
    buf.push(3);
    buf.extend_from_slice(&[10, 0, 0]);
    let mut f = McaFile::open(buf).unwrap();
    assert!(matches!(f.read_chunk(0, 5), Err(McaError::Io)));
}

#[test]
fn garbage_payload_is_decode_error() {
    let mut buf = empty_region();
    set_entry(&mut buf, 6, 0, 2, 1, 0);
    push_chunk(&mut buf, 2, &[1, 2, 3, 4, 5, 6]);
    let mut f = McaFile::open(buf).unwrap();
    assert!(matches!(f.read_chunk(6, 0), Err(McaError::Decode(_))));
    assert_eq!(f.position(), 0);
}

#[test]
fn closed_file_refuses_reads() {
    let blob = sample_blob();
    let mut buf = empty_region();
    set_entry(&mut buf, 5, 10, 2, 1, 0);
    push_chunk(&mut buf, 3, &raw_bytes(&blob));
    let mut f = McaFile::open(buf).unwrap();
    assert!(f.read_chunk(5, 10).unwrap().is_some());
    f.close();
    assert!(!f.is_open());
    assert!(matches!(f.read_chunk(5, 10), Err(McaError::Closed)));
    assert!(matches!(f.read_chunk(0, 0), Err(McaError::Closed)));
}

#[test]
fn big_endian_words() {
    let b = [0x12u8, 0x34, 0x56, 0x78, 0x9a];
    assert_eq!(read_be_u32(&b, 0), 0x1234_5678);
    assert_eq!(read_be_u32(&b, 1), 0x3456_789a);
    assert_eq!(read_sector_offset(&b, 0), 0x12_3456 * 4096);
    assert_eq!(read_sector_offset(&[0xff, 0xff, 0xff, 0xff], 0), 0xff_ffff * 4096);
}

#[test]
fn header_tables_parse_row_major() {
    let mut buf = empty_region();
    set_entry(&mut buf, 1, 0, 5, 2, 77);
    set_entry(&mut buf, 31, 31, 0x01_0203, 1, 0xdead_beef);
    let locs = parse_locations(&buf);
    let stamps = parse_timestamps(&buf);
    assert_eq!(locs.len(), 1024);
    assert_eq!(stamps.len(), 1024);
    assert_eq!(locs[32], 5 * 4096);
    assert_eq!(stamps[32], 77);
    assert_eq!(locs[1023], 0x01_0203 * 4096);
    assert_eq!(stamps[1023], 0xdead_beef);
    assert_eq!(locs[0], 0);
    assert_eq!(stamps[0], 0);
}

#[test]
fn compression_tags() {
    assert_eq!(CompressionMode::from_tag(1), Some(CompressionMode::GZip));
    assert_eq!(CompressionMode::from_tag(2), Some(CompressionMode::ZLib));
    assert_eq!(CompressionMode::from_tag(3), Some(CompressionMode::Raw));
    assert_eq!(CompressionMode::from_tag(0), None);
    assert_eq!(CompressionMode::from_tag(7), None);
    assert_eq!(CompressionMode::default(), CompressionMode::Raw);
}

#[test]
fn payload_codecs() {
    let blob = sample_blob();
    assert_eq!(decode_payload(CompressionMode::Raw, &raw_bytes(&blob)).unwrap(), blob);
    assert_eq!(decode_payload(CompressionMode::GZip, &gzip_bytes(&blob)).unwrap(), blob);
    assert_eq!(decode_payload(CompressionMode::ZLib, &zlib_bytes(&blob)).unwrap(), blob);
    assert!(decode_payload(CompressionMode::GZip, &raw_bytes(&blob)).is_err());
    assert!(decode_payload(CompressionMode::Raw, &[]).is_err());
}

#[test]
fn byte_source_reads_and_seeks() {
    let mut s = ByteSource::new(vec![1, 2, 3, 4, 5]);
    assert_eq!(s.len(), 5);
    assert_eq!(s.read_exact(2), Some(vec![1, 2]));
    assert_eq!(s.position(), 2);
    assert_eq!(s.read_exact(4), None);
    assert_eq!(s.position(), 2);
    s.seek(4);
    assert_eq!(s.read_exact(1), Some(vec![5]));
    s.seek(9);
    assert_eq!(s.read_exact(0), None);
    assert_eq!(s.position(), 9);
}

#[test]
fn read_chunk_at_restores_position() {
    let blob = sample_blob();
    let mut buf = empty_region();
    push_chunk(&mut buf, 3, &raw_bytes(&blob));
    let mut s = ByteSource::new(buf);
    s.seek(17);
    let (b, mode, size) = read_chunk_at(&mut s, 8192).unwrap().unwrap();
    assert_eq!(b, blob);
    assert_eq!(mode, CompressionMode::Raw);
    assert_eq!(size as usize, raw_bytes(&blob).len() + 1);
    assert_eq!(s.position(), 17);
    assert!(matches!(read_chunk_at(&mut s, 0), Ok(None)));
    assert!(matches!(read_chunk_at(&mut s, 4096 * 50), Err(McaError::Io)));
    assert_eq!(s.position(), 17);
}
