use vstd::prelude::*;
use vstd::string::StringSliceAdditionalSpecFns;

use crate::chunk_type::ChunkType;
use crate::chunk_type::tag_bytes_alphabetic;
use crate::Error;

verus! {

/// The IEEE CRC-32 of a byte sequence, as `crc::crc32::checksum_ieee`
/// computes it.
pub uninterp spec fn crc32_of(data: Seq<u8>) -> u32;

/// Relies on `crc::crc32::checksum_ieee`: the IEEE CRC-32 of a byte slice, a
/// function of the bytes alone.
#[verifier::external_body]
fn checksum_ieee(bytes: &[u8]) -> (r: u32)
    ensures
        r == crc32_of(bytes@),
{
    crc::crc32::checksum_ieee(bytes)
}

/// The mathematical content of a chunk: the declared length, the four tag
/// bytes, the payload bytes, and the stored checksum.
#[verifier::ext_equal]
pub struct ChunkModel {
    pub length: u32,
    pub tag: Seq<u8>,
    pub data: Seq<u8>,
    pub crc: u32,
}

/// The four bytes of `x` in big-endian order.
pub open spec fn spec_u32_to_be_bytes(x: u32) -> Seq<u8> {
    seq![
        ((x >> 24) & 0xff) as u8,
        ((x >> 16) & 0xff) as u8,
        ((x >> 8) & 0xff) as u8,
        (x & 0xff) as u8,
    ]
}

/// The value of four bytes read in big-endian order.
pub open spec fn spec_u32_from_be_bytes(s: Seq<u8>) -> u32
    recommends
        s.len() == 4,
{
    ((s[0] as u32) << 24) | ((s[1] as u32) << 16) | ((s[2] as u32) << 8) | (s[3] as u32)
}

/// Reading back the big-endian bytes of a value gives the value.
pub proof fn lemma_u32_be_bytes_round_trip(x: u32)
    ensures
        spec_u32_from_be_bytes(spec_u32_to_be_bytes(x)) == x,
{
    assert((((((x >> 24) & 0xff) as u8) as u32) << 24)
        | (((((x >> 16) & 0xff) as u8) as u32) << 16)
        | (((((x >> 8) & 0xff) as u8) as u32) << 8)
        | (((x & 0xff) as u8) as u32) == x) by (bit_vector);
}

/// The exact on-wire layout of a chunk: four big-endian length bytes, the
/// four tag bytes, the payload, and four big-endian checksum bytes.
pub open spec fn spec_serialize(m: ChunkModel) -> Seq<u8> {
    spec_u32_to_be_bytes(m.length) + m.tag + m.data + spec_u32_to_be_bytes(m.crc)
}

/// What parsing a byte sequence yields: the declared length and checksum are
/// taken verbatim, the tag must be four ASCII alphabetic bytes, and whatever
/// lies between the eight header bytes and the final four checksum bytes is
/// the payload, however the declared length relates to it.
pub open spec fn spec_parse(b: Seq<u8>) -> Result<ChunkModel, Error> {
    if b.len() < 8 {
        Err(Error::FailedConversion)
    } else if !tag_bytes_alphabetic(b.subrange(4, 8)) {
        Err(Error::InvalidByte)
    } else if b.len() < 12 {
        Err(Error::FailedConversion)
    } else {
        Ok(ChunkModel {
            length: spec_u32_from_be_bytes(b.subrange(0, 4)),
            tag: b.subrange(4, 8),
            data: b.subrange(8, b.len() - 4),
            crc: spec_u32_from_be_bytes(b.subrange(b.len() - 4, b.len() as int)),
        })
    }
}

/// A length-framed, type-tagged, checksummed unit of binary payload.
#[derive(Debug)]
pub struct Chunk {
    length: u32,
    chunk_type: ChunkType,
    chunk_data: Vec<u8>,
    crc: u32,
}

impl View for Chunk {
    type V = ChunkModel;

    closed spec fn view(&self) -> ChunkModel {
        ChunkModel {
            length: self.length,
            tag: self.chunk_type@,
            data: self.chunk_data@,
            crc: self.crc,
        }
    }
}

impl Chunk {
    /// Couples a payload with its type tag: the declared length is the
    /// payload's byte count (truncated to 32 bits) and the checksum is the
    /// IEEE CRC-32 of the payload bytes alone, independent of the tag.
    pub fn new(chunk_type: ChunkType, chunk_data: Vec<u8>) -> (r: Chunk)
        ensures
            r@.length == chunk_data@.len() as int % 0x1_0000_0000,
            r@.tag == chunk_type@,
            r@.data == chunk_data@,
            r@.crc == crc32_of(chunk_data@),
    {
        let crc = checksum_ieee(chunk_data.as_slice());
        let n = chunk_data.len();
        let length = #[verifier::truncate] (n as u32);
        proof {
            assert(n as u32 == n as int % 0x1_0000_0000) by (bit_vector);
        }
        Chunk { length, chunk_type, chunk_data, crc }
    }

    /// The declared length, as constructed or as read from the wire.
    pub fn length(&self) -> (r: u32)
        ensures
            r == self@.length,
    {
        self.length
    }

    /// The type tag.
    pub fn chunk_type(&self) -> (r: &ChunkType)
        ensures
            r@ == self@.tag,
    {
        &self.chunk_type
    }

    /// The payload bytes.
    pub fn data(&self) -> (r: &Vec<u8>)
        ensures
            r@ == self@.data,
    {
        &self.chunk_data
    }

    /// The stored checksum, as constructed or as read from the wire.
    pub fn crc(&self) -> (r: u32)
        ensures
            r == self@.crc,
    {
        self.crc
    }

    /// The payload decoded as text; fails exactly when the payload is not a
    /// valid UTF-8 encoding, leaving the chunk itself untouched.
    pub fn data_as_string(&self) -> (r: Result<&str, std::str::Utf8Error>)
        ensures
            (r is Ok) == vstd::utf8::valid_utf8(self@.data),
            r matches Ok(s) ==> s@ == vstd::utf8::decode_utf8(self@.data)
                && s.spec_bytes() == self@.data,
    {
        crate::utf8_from_bytes(self.chunk_data.as_slice())
    }

    /// The chunk in its exact on-wire layout; the length and checksum written
    /// are the stored values, not recomputed ones.
    pub fn as_bytes(&self) -> (r: Vec<u8>)
        ensures
            r@ == spec_serialize(self@),
    {
        let mut to_return: Vec<u8> = Vec::new();
        let mut length_bytes = u32_to_be_bytes(self.length);
        to_return.append(&mut length_bytes);
        let tag = self.chunk_type.bytes();
        to_return.push(tag[0]);
        to_return.push(tag[1]);
        to_return.push(tag[2]);
        to_return.push(tag[3]);
        let mut data_bytes = vstd::slice::slice_to_vec(self.chunk_data.as_slice());
        to_return.append(&mut data_bytes);
        let mut crc_bytes = u32_to_be_bytes(self.crc);
        to_return.append(&mut crc_bytes);
        proof {
            assert(to_return@ =~= spec_serialize(self@));
        }
        to_return
    }

    /// Builds a chunk from its on-wire bytes, as `spec_parse` describes:
    /// length, tag, and checksum are taken verbatim and are not checked
    /// against each other or against the payload.
    pub fn try_from(value: &[u8]) -> (r: Result<Chunk, Error>)
        ensures
            (r is Ok) == (spec_parse(value@) is Ok),
            r matches Ok(c) ==> c@ == spec_parse(value@).unwrap(),
            r matches Err(e) ==> spec_parse(value@) == Err::<ChunkModel, Error>(e),
    {
        if value.len() < 8 {
            return Err(Error::FailedConversion);
        }
        let length = match read_be_u32(value) {
            Ok(l) => l,
            Err(e) => return Err(e),
        };
        let tag_bytes = [
            *vstd::slice::slice_index_get(value, 4),
            *vstd::slice::slice_index_get(value, 5),
            *vstd::slice::slice_index_get(value, 6),
            *vstd::slice::slice_index_get(value, 7),
        ];
        proof {
            assert(tag_bytes@ =~= value@.subrange(4, 8));
        }
        let chunk_type = match ChunkType::try_from(tag_bytes) {
            Ok(t) => t,
            Err(_) => return Err(Error::InvalidByte),
        };
        if value.len() < 12 {
            return Err(Error::FailedConversion);
        }
        let payload_end = value.len() - 4;
        let chunk_data = vstd::slice::slice_to_vec(
            vstd::slice::slice_subrange(value, 8, payload_end),
        );
        let crc_field = vstd::slice::slice_subrange(value, payload_end, value.len());
        let crc = match read_be_u32(crc_field) {
            Ok(c) => c,
            Err(e) => return Err(e),
        };
        proof {
            assert(crc_field@.subrange(0, 4) =~= value@.subrange(
                value@.len() - 4,
                value@.len() as int,
            ));
        }
        let chunk = Chunk { length, chunk_type, chunk_data, crc };
        proof {
            assert(chunk@ =~= spec_parse(value@).unwrap());
        }
        Ok(chunk)
    }

    /// Checks, on explicit request, what parsing deliberately tolerates:
    /// succeeds exactly when the stored checksum is the IEEE CRC-32 of the
    /// payload and the declared length is the payload's byte count.
    pub fn verify(&self) -> (r: Result<(), Error>)
        ensures
            (r is Ok) == (self@.crc == crc32_of(self@.data) && self@.length == self@.data.len()),
            r is Err ==> r == Err::<(), Error>(Error::VerificationMismatch),
    {
        let actual_crc = checksum_ieee(self.chunk_data.as_slice());
        let length_matches = self.chunk_data.len() == self.length as usize;
        if actual_crc == self.crc && length_matches {
            Ok(())
        } else {
            Err(Error::VerificationMismatch)
        }
    }
}

/// Reads the first four bytes of the input as a big-endian unsigned 32-bit
/// value; fails exactly when fewer than four bytes are there.
pub fn read_be_u32(input: &[u8]) -> (r: Result<u32, Error>)
    ensures
        input@.len() >= 4 ==> r == Ok::<u32, Error>(spec_u32_from_be_bytes(input@.subrange(0, 4))),
        input@.len() < 4 ==> r == Err::<u32, Error>(Error::FailedConversion),
{
    if input.len() < 4 {
        return Err(Error::FailedConversion);
    }
    let b0 = *vstd::slice::slice_index_get(input, 0);
    let b1 = *vstd::slice::slice_index_get(input, 1);
    let b2 = *vstd::slice::slice_index_get(input, 2);
    let b3 = *vstd::slice::slice_index_get(input, 3);
    let x = ((b0 as u32) << 24) | ((b1 as u32) << 16) | ((b2 as u32) << 8) | (b3 as u32);
    proof {
        let s = input@.subrange(0, 4);
        assert(s[0] == input@[0] && s[1] == input@[1] && s[2] == input@[2] && s[3] == input@[3]);
    }
    Ok(x)
}

/// Writes a value as its four bytes in big-endian order.
fn u32_to_be_bytes(x: u32) -> (r: Vec<u8>)
    ensures
        r@ == spec_u32_to_be_bytes(x),
{
    proof {
        assert((x >> 24) & 0xff < 256 && (x >> 16) & 0xff < 256 && (x >> 8) & 0xff < 256 && x
            & 0xff < 256) by (bit_vector);
    }
    let mut r: Vec<u8> = Vec::new();
    r.push(((x >> 24) & 0xff) as u8);
    r.push(((x >> 16) & 0xff) as u8);
    r.push(((x >> 8) & 0xff) as u8);
    r.push((x & 0xff) as u8);
    proof {
        assert(r@ =~= spec_u32_to_be_bytes(x));
    }
    r
}

/// Law: parsing the serialization of any chunk whose tag is four ASCII
/// alphabetic bytes succeeds and yields the same chunk, field for field.
pub proof fn lemma_parse_serialize_round_trip(m: ChunkModel)
    requires
        m.tag.len() == 4,
        tag_bytes_alphabetic(m.tag),
    ensures
        spec_parse(spec_serialize(m)) == Ok::<ChunkModel, Error>(m),
{
    let b = spec_serialize(m);
    assert(b.len() == 12 + m.data.len());
    assert(b.subrange(0, 4) =~= spec_u32_to_be_bytes(m.length));
    assert(b.subrange(4, 8) =~= m.tag);
    assert(b.subrange(8, b.len() - 4) =~= m.data);
    assert(b.subrange(b.len() - 4, b.len() as int) =~= spec_u32_to_be_bytes(m.crc));
    lemma_u32_be_bytes_round_trip(m.length);
    lemma_u32_be_bytes_round_trip(m.crc);
    assert(spec_parse(b).unwrap() =~= m);
}

} // verus!
