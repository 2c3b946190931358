use vstd::prelude::*;
use vstd::string::StringSliceAdditionalSpecFns;

use crate::Error;

verus! {

/// The byte is an ASCII uppercase letter (`A`-`Z`).
pub open spec fn is_uppercase_byte(b: u8) -> bool {
    65 <= b <= 90
}

/// The byte is an ASCII lowercase letter (`a`-`z`).
pub open spec fn is_lowercase_byte(b: u8) -> bool {
    97 <= b <= 122
}

/// The byte is an ASCII alphabetic character.
pub open spec fn is_alphabetic_byte(b: u8) -> bool {
    is_uppercase_byte(b) || is_lowercase_byte(b)
}

/// Every byte of the sequence is an ASCII alphabetic character.
pub open spec fn tag_bytes_alphabetic(s: Seq<u8>) -> bool {
    forall|i: int| 0 <= i < s.len() ==> is_alphabetic_byte(#[trigger] s[i])
}

/// A four-byte identifier whose byte cases encode semantic flags: the case of
/// each fixed byte position answers one of the `is_*` queries.
#[derive(Debug, Eq)]
pub struct ChunkType {
    chunk_type: [u8; 4],
}

impl PartialEq for ChunkType {
    /// Two type tags are equal exactly when their four bytes match,
    /// case-sensitively.
    fn eq(&self, other: &ChunkType) -> (r: bool) {
        let r = self.chunk_type[0] == other.chunk_type[0]
            && self.chunk_type[1] == other.chunk_type[1]
            && self.chunk_type[2] == other.chunk_type[2]
            && self.chunk_type[3] == other.chunk_type[3];
        proof {
            broadcast use vstd::array::group_array_axioms;

            if r {
                assert(self.chunk_type@ =~= other.chunk_type@);
            }
        }
        r
    }
}

impl vstd::std_specs::cmp::PartialEqSpecImpl for ChunkType {
    open spec fn obeys_eq_spec() -> bool {
        true
    }

    open spec fn eq_spec(&self, other: &ChunkType) -> bool {
        self@ == other@
    }
}

impl View for ChunkType {
    type V = Seq<u8>;

    closed spec fn view(&self) -> Seq<u8> {
        self.chunk_type@
    }
}

impl ChunkType {
    /// Wraps four bytes as a type tag, refusing any byte that is not ASCII
    /// alphabetic.
    pub fn try_from(value: [u8; 4]) -> (r: Result<ChunkType, Error>)
        ensures
            (r is Ok) == tag_bytes_alphabetic(value@),
            r matches Ok(t) ==> t@ == value@,
            r is Err ==> r == Err::<ChunkType, Error>(Error::InvalidByte),
    {
        let mut i: usize = 0;
        while i < 4
            invariant
                i <= 4,
                forall|j: int| 0 <= j < i ==> is_alphabetic_byte(#[trigger] value@[j]),
            decreases 4 - i,
        {
            let b = value[i];
            if !((b >= 65 && b <= 90) || (b >= 97 && b <= 122)) {
                return Err(Error::InvalidByte);
            }
            i += 1;
        }
        Ok(ChunkType { chunk_type: value })
    }

    /// Wraps the bytes of a text as a type tag, failing unless the text
    /// encodes to exactly four bytes; the bytes are accepted as they are,
    /// without the alphabetic check that `try_from` makes.
    pub fn from_str(s: &str) -> (r: Result<ChunkType, Error>)
        ensures
            (r is Ok) == (s.spec_bytes().len() == 4),
            r matches Ok(t) ==> t@ == s.spec_bytes(),
            r is Err ==> r == Err::<ChunkType, Error>(Error::FailedConversion),
    {
        let b = s.as_bytes();
        if b.len() != 4 {
            return Err(Error::FailedConversion);
        }
        let tag = [
            *vstd::slice::slice_index_get(b, 0),
            *vstd::slice::slice_index_get(b, 1),
            *vstd::slice::slice_index_get(b, 2),
            *vstd::slice::slice_index_get(b, 3),
        ];
        proof {
            assert(tag@ =~= s.spec_bytes());
        }
        Ok(ChunkType { chunk_type: tag })
    }

    /// The four underlying bytes, case preserved.
    pub fn bytes(&self) -> (r: [u8; 4])
        ensures
            r@ == self@,
    {
        self.chunk_type
    }

    /// The reserved flag holds: the third byte is uppercase.
    pub fn is_valid(&self) -> (r: bool)
        ensures
            r == is_uppercase_byte(self@[2]),
    {
        let b = self.chunk_type[2];
        b >= 65 && b <= 90
    }

    /// The chunk is critical: the first byte is uppercase.
    pub fn is_critical(&self) -> (r: bool)
        ensures
            r == is_uppercase_byte(self@[0]),
    {
        let b = self.chunk_type[0];
        b >= 65 && b <= 90
    }

    /// The chunk is public: the second byte is uppercase.
    pub fn is_public(&self) -> (r: bool)
        ensures
            r == is_uppercase_byte(self@[1]),
    {
        let b = self.chunk_type[1];
        b >= 65 && b <= 90
    }

    /// The reserved bit is set correctly: the third byte is uppercase.
    pub fn is_reserved_bit_valid(&self) -> (r: bool)
        ensures
            r == is_uppercase_byte(self@[2]),
    {
        let b = self.chunk_type[2];
        b >= 65 && b <= 90
    }

    /// The chunk is safe to copy: the fourth byte is lowercase.
    pub fn is_safe_to_copy(&self) -> (r: bool)
        ensures
            r == is_lowercase_byte(self@[3]),
    {
        let b = self.chunk_type[3];
        b >= 97 && b <= 122
    }

    /// The four bytes decoded as text; fails exactly when they are not a
    /// valid UTF-8 encoding.
    pub fn to_string(&self) -> (r: Result<&str, std::str::Utf8Error>)
        ensures
            (r is Ok) == vstd::utf8::valid_utf8(self@),
            r matches Ok(s) ==> s@ == vstd::utf8::decode_utf8(self@)
                && s.spec_bytes() == self@,
    {
        crate::utf8_from_bytes(self.chunk_type.as_slice())
    }
}

/// Law: two type tags compare equal exactly when their four underlying bytes
/// are equal, case-sensitively.
pub proof fn lemma_tag_eq_iff_bytes_eq(a: ChunkType, b: ChunkType)
    ensures
        (a == b) <==> (a@ =~= b@),
{
    broadcast use vstd::array::group_array_axioms;

    if a@ =~= b@ {
        assert(a.chunk_type =~= b.chunk_type);
    }
}

} // verus!
