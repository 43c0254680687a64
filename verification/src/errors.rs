//! Why encoding or decoding stopped.
use vstd::prelude::*;

verus! {

/// Why a decoder gave no value.
#[derive(Debug)]
pub enum DecodingError {
    /// The input is no well-formed item of the kind expected, ends too
    /// early, or breaks one of the decoder's limits.
    Decoder(cbor::DecodeError),
    /// The version tag is none that this crate reads; the tag is carried.
    InvalidVersion(u16),
    /// The array holds another number of fields than the version has; the
    /// number found is carried.
    InvalidArrayLen(usize),
    /// A key has another length than its kind has.
    InvalidKeyLen { expected: usize, actual: usize },
}

/// Why an encoder wrote no value.
#[derive(Debug)]
pub enum EncodingError {
    /// The writer below the encoder failed.
    Encoder(cbor::EncodeError),
}

/// The result of decoding.
pub type DecodeResult<A> = Result<A, DecodingError>;

/// The result of encoding.
pub type EncodeResult<A> = Result<A, EncodingError>;

/// The ways in which bytes can fail to hold a value, as the formats tell
/// them apart.
pub ghost enum Failure {
    /// No well-formed item of the kind expected, within the limits.
    Malformed,
    /// A version tag other than the known ones.
    UnknownVersion(u16),
    /// A field count other than the version's.
    ArrayLen(nat),
    /// A key of another length than its kind has.
    KeyLen { expected: nat, actual: nat },
}

impl DecodingError {
    /// The failure an error reports.
    pub open spec fn failure(self) -> Failure {
        match self {
            DecodingError::Decoder(_) => Failure::Malformed,
            DecodingError::InvalidVersion(v) => Failure::UnknownVersion(v),
            DecodingError::InvalidArrayLen(n) => Failure::ArrayLen(n as nat),
            DecodingError::InvalidKeyLen { expected, actual } => Failure::KeyLen {
                expected: expected as nat,
                actual: actual as nat,
            },
        }
    }
}

} // verus!
