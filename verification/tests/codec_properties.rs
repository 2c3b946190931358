use chunk_codec::chunk::{read_be_u32, Chunk};
use chunk_codec::chunk_type::ChunkType;
use chunk_codec::Error;

#[test]
fn round_trip_through_wire_bytes() {
    let tag = ChunkType::try_from([82, 117, 83, 116]).unwrap();
    let data: Vec<u8> = "any payload at all".as_bytes().to_vec();
    let constructed = Chunk::new(tag, data.clone());

    let wire = constructed.as_bytes();
    let reparsed = Chunk::try_from(wire.as_ref()).unwrap();

    assert_eq!(reparsed.length(), constructed.length());
    assert_eq!(reparsed.chunk_type().bytes(), [82, 117, 83, 116]);
    assert_eq!(reparsed.data(), &data);
    assert_eq!(reparsed.crc(), constructed.crc());
}

#[test]
fn crc_is_over_payload_alone() {
    let message: Vec<u8> = "This is where your secret message will be!".as_bytes().to_vec();

    let critical = Chunk::new(ChunkType::try_from([82, 117, 83, 116]).unwrap(), message.clone());
    let ancillary = Chunk::new(ChunkType::try_from([114, 117, 83, 116]).unwrap(), message.clone());

    assert_eq!(critical.crc(), 4220142316);
    assert_eq!(ancillary.crc(), 4220142316);
    assert_eq!(critical.length(), 42);
}

#[test]
fn empty_payload_chunk() {
    let chunk = Chunk::new(ChunkType::from_str("RuSt").unwrap(), Vec::new());
    assert_eq!(chunk.length(), 0);
    assert_eq!(chunk.crc(), 0);
    assert_eq!(chunk.as_bytes().len(), 12);
    assert!(chunk.verify().is_ok());
}

#[test]
fn tag_equality_is_byte_for_byte() {
    let a = ChunkType::try_from([82, 117, 83, 116]).unwrap();
    let b = ChunkType::from_str("RuSt").unwrap();
    let case_differs = ChunkType::from_str("RuST").unwrap();

    assert_eq!(a, b);
    assert_ne!(a, case_differs);
}

#[test]
fn tag_from_invalid_byte_fails() {
    let r = ChunkType::try_from([82, 117, 49, 116]);
    assert!(matches!(r, Err(Error::InvalidByte)));
}

#[test]
fn tag_from_str_of_wrong_length_fails() {
    assert!(matches!(ChunkType::from_str("Rus"), Err(Error::FailedConversion)));
    assert!(matches!(ChunkType::from_str("Rusty"), Err(Error::FailedConversion)));
}

#[test]
fn parse_of_fewer_than_eight_bytes_fails() {
    let bytes = [0u8, 0, 0, 42, 82, 117, 83];
    for n in 0..8 {
        let r = Chunk::try_from(&bytes[..n.min(bytes.len())]);
        assert!(matches!(r, Err(Error::FailedConversion)));
    }
}

#[test]
fn parse_without_room_for_crc_fails() {
    let bytes = [0u8, 0, 0, 2, 82, 117, 83, 116, 1, 2, 3];
    let r = Chunk::try_from(&bytes[..]);
    assert!(matches!(r, Err(Error::FailedConversion)));
}

#[test]
fn parse_with_invalid_tag_byte_fails() {
    let bytes = [0u8, 0, 0, 1, 82, 117, 49, 116, 9, 0, 0, 0, 0];
    let r = Chunk::try_from(&bytes[..]);
    assert!(matches!(r, Err(Error::InvalidByte)));
}

#[test]
fn parse_tolerates_mismatched_length_and_crc() {
    let bytes = [0u8, 0, 0, 99, 82, 117, 83, 116, 7, 7, 0, 0, 0, 1];
    let chunk = Chunk::try_from(&bytes[..]).unwrap();
    assert_eq!(chunk.length(), 99);
    assert_eq!(chunk.data(), &vec![7u8, 7]);
    assert_eq!(chunk.crc(), 1);
}

#[test]
fn verify_rejects_stale_fields_that_parse_tolerates() {
    let bytes = [0u8, 0, 0, 99, 82, 117, 83, 116, 7, 7, 0, 0, 0, 1];
    let chunk = Chunk::try_from(&bytes[..]).unwrap();
    assert!(matches!(chunk.verify(), Err(Error::VerificationMismatch)));

    let rebuilt = Chunk::new(ChunkType::from_str("RuSt").unwrap(), vec![7u8, 7]);
    assert!(rebuilt.verify().is_ok());
}

#[test]
fn invalid_utf8_payload_fails_text_view_only() {
    let chunk = Chunk::new(ChunkType::from_str("RuSt").unwrap(), vec![0x80u8]);
    assert!(chunk.data_as_string().is_err());
    assert_eq!(chunk.data(), &vec![0x80u8]);
}

#[test]
fn tag_from_str_may_hold_non_alphabetic_bytes() {
    let tag = ChunkType::from_str("Ru1t").unwrap();
    assert_eq!(tag.bytes(), [82, 117, 49, 116]);
    assert_eq!(tag.to_string().unwrap(), "Ru1t");
}

#[test]
fn read_be_u32_reads_the_first_four_bytes() {
    assert_eq!(read_be_u32(&[0, 0, 0, 42]), Ok(42));
    assert_eq!(read_be_u32(&[0xAB, 0xCD, 0xEF, 0x01, 0xFF]), Ok(0xABCDEF01));
    assert_eq!(read_be_u32(&[0, 0, 42]), Err(Error::FailedConversion));
}

#[test]
fn error_messages_name_the_failure() {
    assert_eq!(Error::InvalidByte.message(), "The byte given was invalid ascii");
    assert_eq!(Error::FailedConversion.message(), "A conversion failed");
}
