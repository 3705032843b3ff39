use soulseek_server::{BufferReader, BufferWriter, ServerError};

#[test]
fn round_trip_every_primitive() {
    let mut w = BufferWriter::new();
    w.write_u8(7)
        .write_bool(true)
        .write_bool(false)
        .write_u16(0xBEEF)
        .write_u32(0xDEAD_BEEF)
        .write_i32(-5)
        .write_u64(0x0102_0304_0506_0708)
        .write_string("héllo")
        .write_byte_array(&[9, 8, 7]);
    let bytes = w.to_vec();
    let mut r = BufferReader::new(&bytes);
    assert_eq!(r.read_u8(), Ok(7));
    assert_eq!(r.read_bool(), Ok(true));
    assert_eq!(r.read_bool(), Ok(false));
    assert_eq!(r.read_u16(), Ok(0xBEEF));
    assert_eq!(r.read_u32(), Ok(0xDEAD_BEEF));
    assert_eq!(r.read_i32(), Ok(-5));
    assert_eq!(r.read_u64(), Ok(0x0102_0304_0506_0708));
    assert_eq!(r.read_string(), Ok("héllo".to_string()));
    let n = r.read_u32().unwrap() as usize;
    assert_eq!(r.read_bytes(n), Ok(&[9u8, 8, 7][..]));
    assert!(r.is_empty());
}

#[test]
fn writes_are_little_endian() {
    let mut w = BufferWriter::new();
    w.write_u32(0x0403_0201).write_u16(0x0605);
    assert_eq!(w.buffer(), &[1, 2, 3, 4, 5, 6]);
}

#[test]
fn string_has_byte_length_prefix() {
    let mut w = BufferWriter::new();
    w.write_string("é");
    assert_eq!(w.to_vec(), vec![2, 0, 0, 0, 0xC3, 0xA9]);
}

#[test]
fn bool_reads_any_nonzero_byte_as_true() {
    let bytes = [0u8, 1, 200];
    let mut r = BufferReader::new(&bytes);
    assert_eq!(r.read_bool(), Ok(false));
    assert_eq!(r.read_bool(), Ok(true));
    assert_eq!(r.read_bool(), Ok(true));
    assert!(r.is_empty());
}

#[test]
fn reading_past_the_end_fails_and_keeps_the_cursor() {
    let bytes = [1u8, 2, 3];
    let mut r = BufferReader::new(&bytes);
    assert_eq!(r.read_u32(), Err(ServerError::EndOfData));
    assert_eq!(r.read_u16(), Ok(0x0201));
    assert_eq!(r.read_u16(), Err(ServerError::EndOfData));
    assert_eq!(r.read_byte(), Ok(3));
    assert!(r.is_empty());
    assert_eq!(r.read_u8(), Err(ServerError::EndOfData));
}

#[test]
fn empty_buffer_is_empty() {
    let bytes: [u8; 0] = [];
    let r = BufferReader::new(&bytes);
    assert!(r.is_empty());
}

#[test]
fn truncated_string_is_end_of_data() {
    let bytes = [5u8, 0, 0, 0, b'a', b'b'];
    let mut r = BufferReader::new(&bytes);
    assert_eq!(r.read_string(), Err(ServerError::EndOfData));
}

#[test]
fn invalid_utf8_string_is_rejected() {
    let bytes = [2u8, 0, 0, 0, 0xFF, 0xFE];
    let mut r = BufferReader::new(&bytes);
    assert_eq!(r.read_string(), Err(ServerError::InvalidUtf8));
}

#[test]
fn empty_string_round_trips() {
    let mut w = BufferWriter::new();
    w.write_string("");
    let bytes = w.to_vec();
    assert_eq!(bytes, vec![0, 0, 0, 0]);
    let mut r = BufferReader::new(&bytes);
    assert_eq!(r.read_string(), Ok(String::new()));
    assert!(r.is_empty());
}

#[test]
fn extreme_integers_round_trip() {
    let mut w = BufferWriter::new();
    w.write_u32(u32::MAX).write_i32(i32::MIN).write_u64(u64::MAX).write_u8(255);
    let bytes = w.to_vec();
    let mut r = BufferReader::new(&bytes);
    assert_eq!(r.read_u32(), Ok(u32::MAX));
    assert_eq!(r.read_i32(), Ok(i32::MIN));
    assert_eq!(r.read_u64(), Ok(u64::MAX));
    assert_eq!(r.read_u8(), Ok(255));
}
