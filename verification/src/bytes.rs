//! Keys of a fixed length, read from a byte string of exactly that length.
use vstd::prelude::*;
use cbor::Decoder;
use crate::errors::{DecodeResult, DecodingError};
use crate::format::{parse_fixed, Parsed};
use crate::stream::{limits, pending, string_limit, take_string};

verus! {

/// What a decoding step owes, given what the pending bytes hold. Where they
/// hold a value, the step returns it, has read exactly its bytes and has
/// left the limits alone. Where they hold none, the step returns the error
/// that reports why, and nothing is said of the decoder.
pub open spec fn decoded<T: View>(
    before: Decoder<&[u8]>,
    after: Decoder<&[u8]>,
    r: DecodeResult<T>,
    expected: Parsed<T::V>,
) -> bool {
    match expected {
        Ok((v, n)) => r matches Ok(x) && x@ == v && pending(after) == pending(before).skip(
            n as int,
        ) && limits(after) == limits(before),
        Err(f) => r matches Err(e) && e.failure() == f,
    }
}

/// Thirty-two bytes.
#[derive(Clone, Debug, PartialEq, Eq)]
pub struct Bytes32 {
    pub array: [u8; 32],
}

impl View for Bytes32 {
    type V = Seq<u8>;

    open spec fn view(&self) -> Seq<u8> {
        self.array@
    }
}

/// Sixty-four bytes.
#[derive(Clone, Debug, PartialEq, Eq)]
pub struct Bytes64 {
    pub array: [u8; 64],
}

impl View for Bytes64 {
    type V = Seq<u8>;

    open spec fn view(&self) -> Seq<u8> {
        self.array@
    }
}

impl Bytes32 {
    /// Reads a byte string and accepts it only if it is 32 bytes long.
    pub fn decode(d: &mut Decoder<&[u8]>) -> (r: DecodeResult<Bytes32>)
        requires
            string_limit(*old(d)) <= isize::MAX,
        ensures
            decoded(*old(d), *final(d), r, parse_fixed(pending(*old(d)), limits(*old(d)), 32)),
    {
        let v = match take_string(d) {
            Ok(v) => v,
            Err(e) => {
                return Err(DecodingError::Decoder(e));
            },
        };
        if v.len() != 32 {
            return Err(DecodingError::InvalidKeyLen { expected: 32, actual: v.len() });
        }
        let mut array = [0u8; 32];
        let mut i: usize = 0;
        while i < 32
            invariant
                i <= 32,
                v@.len() == 32,
                forall|j: int| 0 <= j < i ==> array@[j] == v@[j],
            decreases 32 - i,
        {
            array[i] = v[i];
            i += 1;
        }
        assert(array@ =~= v@);
        Ok(Bytes32 { array })
    }
}

impl Bytes64 {
    /// Reads a byte string and accepts it only if it is 64 bytes long.
    pub fn decode(d: &mut Decoder<&[u8]>) -> (r: DecodeResult<Bytes64>)
        requires
            string_limit(*old(d)) <= isize::MAX,
        ensures
            decoded(*old(d), *final(d), r, parse_fixed(pending(*old(d)), limits(*old(d)), 64)),
    {
        let v = match take_string(d) {
            Ok(v) => v,
            Err(e) => {
                return Err(DecodingError::Decoder(e));
            },
        };
        if v.len() != 64 {
            return Err(DecodingError::InvalidKeyLen { expected: 64, actual: v.len() });
        }
        let mut array = [0u8; 64];
        let mut i: usize = 0;
        while i < 64
            invariant
                i <= 64,
                v@.len() == 64,
                forall|j: int| 0 <= j < i ==> array@[j] == v@[j],
            decreases 64 - i,
        {
            array[i] = v[i];
            i += 1;
        }
        assert(array@ =~= v@);
        Ok(Bytes64 { array })
    }
}

} // verus!
