//! The CBOR encoder and decoder that carry the bytes. Their types and the
//! calls made on them are declared here with the contracts the rest of the
//! crate is proved against; nothing in this file is itself proved.
use vstd::prelude::*;
use cbor::{Config, Decoder, Encoder};
use crate::wire::{
    array_bytes, read_array, read_string, read_uint, string_bytes, uint_bytes, Limits,
};

verus! {

/// `cbor::Encoder`, opaque: only the names and calls below speak of it.
#[verifier::external_type_specification]
#[verifier::external_body]
#[verifier::reject_recursive_types(W)]
pub struct ExEncoder<W>(Encoder<W>);

/// `cbor::Decoder`, opaque: only the names and calls below speak of it.
#[verifier::external_type_specification]
#[verifier::external_body]
#[verifier::reject_recursive_types(R)]
pub struct ExDecoder<R>(Decoder<R>);

/// `cbor::EncodeError`, carried through unread.
#[verifier::external_type_specification]
#[verifier::external_body]
pub struct ExEncodeError(cbor::EncodeError);

/// `cbor::DecodeError`, carried through unread.
#[verifier::external_type_specification]
#[verifier::external_body]
pub struct ExDecodeError(cbor::DecodeError);

/// The content of the vector an encoder writes into: what the vector held
/// when the encoder was made, then what the encoder has written.
pub uninterp spec fn written(e: Encoder<Vec<u8>>) -> Seq<u8>;

/// The bytes of its slice that a decoder has not read yet.
pub uninterp spec fn pending(d: Decoder<&[u8]>) -> Seq<u8>;

/// The `max_nesting` a decoder was configured with.
pub uninterp spec fn nesting_limit(d: Decoder<&[u8]>) -> nat;

/// The `max_len_bytes` a decoder was configured with.
pub uninterp spec fn string_limit(d: Decoder<&[u8]>) -> nat;

/// The `max_len_array` a decoder was configured with.
pub uninterp spec fn array_limit(d: Decoder<&[u8]>) -> nat;

/// The limits a decoder was configured with.
pub open spec fn limits(d: Decoder<&[u8]>) -> Limits {
    Limits { nesting: nesting_limit(d), bytes: string_limit(d), array: array_limit(d) }
}

/// The limits of `cbor::Config::default()`.
pub open spec fn default_limits() -> Limits {
    Limits { nesting: 16, bytes: 0x500000, array: 1000 }
}

/// `Encoder::new` on an empty vector: nothing is written yet.
#[verifier::external_body]
pub(crate) fn new_encoder() -> (e: Encoder<Vec<u8>>)
    ensures
        written(e) == Seq::<u8>::empty(),
{
    Encoder::new(Vec::new())
}

/// `Encoder::into_writer`: hands out the vector the encoder wrote into.
#[verifier::external_body]
pub(crate) fn into_bytes(e: Encoder<Vec<u8>>) -> (out: Vec<u8>)
    ensures
        out@ == written(e),
{
    e.into_writer()
}

/// `Encoder::u16`: appends the shortest head of major type 0 for `x`. The
/// writer is a vector, whose writes append and do not fail, so the call
/// returns `Ok`.
#[verifier::external_body]
pub(crate) fn put_uint(e: &mut Encoder<Vec<u8>>, x: u16) -> (r: Result<(), cbor::EncodeError>)
    ensures
        r is Ok,
        written(*final(e)) == written(*old(e)) + uint_bytes(x),
{
    e.u16(x)
}

/// `Encoder::array`: appends the shortest head of major type 4 for `count`.
/// Stated for counts below 65536, for which the head has at most three
/// bytes; writes to a vector do not fail.
#[verifier::external_body]
pub(crate) fn put_array(e: &mut Encoder<Vec<u8>>, count: usize) -> (r: Result<
    (),
    cbor::EncodeError,
>)
    requires
        count <= 0xFFFF,
    ensures
        r is Ok,
        written(*final(e)) == written(*old(e)) + array_bytes(count as u16),
{
    e.array(count)
}

/// `Encoder::bytes`: appends the shortest head of major type 2 for the
/// length of `content`, then `content` itself. Stated for lengths below
/// 65536; writes to a vector do not fail.
#[verifier::external_body]
pub(crate) fn put_string(e: &mut Encoder<Vec<u8>>, content: &[u8]) -> (r: Result<
    (),
    cbor::EncodeError,
>)
    requires
        content@.len() <= 0xFFFF,
    ensures
        r is Ok,
        written(*final(e)) == written(*old(e)) + string_bytes(content@),
{
    e.bytes(content)
}

/// `Decoder::new` with `Config::default()` on a slice: all of the slice is
/// still to be read, under the default limits.
#[verifier::external_body]
pub(crate) fn new_decoder(input: &[u8]) -> (d: Decoder<&[u8]>)
    ensures
        pending(d) == input@,
        nesting_limit(d) == 16,
        string_limit(d) == 0x500000,
        array_limit(d) == 1000,
{
    Decoder::new(Config::default(), input)
}

/// `Decoder::u16`: passes over tags, then reads an unsigned integer written
/// in one, two or three bytes. On success the bytes read are gone from the
/// input and the limits are as before; in every other case the call returns
/// an error.
#[verifier::external_body]
pub(crate) fn take_uint(d: &mut Decoder<&[u8]>) -> (r: Result<u16, cbor::DecodeError>)
    ensures
        match read_uint(pending(*old(d)), limits(*old(d))) {
            Some((v, n)) => r matches Ok(x) && x == v && pending(*final(d)) == pending(
                *old(d),
            ).skip(n as int) && limits(*final(d)) == limits(*old(d)),
            None => r is Err,
        },
{
    d.u16()
}

/// `Decoder::array`: passes over tags, then reads the header of an array of
/// definite length and returns its element count, unless the count is over
/// `max_len_array`. On success the bytes read are gone from the input and
/// the limits are as before; in every other case the call returns an error.
#[verifier::external_body]
pub(crate) fn take_array(d: &mut Decoder<&[u8]>) -> (r: Result<usize, cbor::DecodeError>)
    ensures
        match read_array(pending(*old(d)), limits(*old(d))) {
            Some((count, n)) => r matches Ok(x) && x == count && pending(*final(d)) == pending(
                *old(d),
            ).skip(n as int) && limits(*final(d)) == limits(*old(d)),
            None => r is Err,
        },
{
    d.array()
}

/// `Decoder::bytes`: passes over tags, then reads a byte string of definite
/// length and returns its content, unless the length is over `max_len_bytes`
/// or the input ends first. The buffer is allocated from the stated length,
/// so `max_len_bytes` must be a size a vector can have. On success the bytes
/// read are gone from the input and the limits are as before; in every other
/// case the call returns an error.
#[verifier::external_body]
pub(crate) fn take_string(d: &mut Decoder<&[u8]>) -> (r: Result<Vec<u8>, cbor::DecodeError>)
    requires
        string_limit(*old(d)) <= isize::MAX,
    ensures
        match read_string(pending(*old(d)), limits(*old(d))) {
            Some((content, n)) => r matches Ok(x) && x@ == content && pending(*final(d))
                == pending(*old(d)).skip(n as int) && limits(*final(d)) == limits(*old(d)),
            None => r is Err,
        },
{
    d.bytes()
}

} // verus!
