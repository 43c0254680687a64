//! The three CBOR items the key formats are built from, as functions on bytes:
//! unsigned integers, byte strings of a stated length, and array headers.
//!
//! Every item starts with a head: one byte whose upper three bits give the
//! major type and whose lower five bits give the argument or the width of the
//! argument that follows in big-endian order. A reader passes over any tags in
//! front of an item, up to a nesting limit.
use vstd::prelude::*;

verus! {

/// Major type of unsigned integers.
pub const MAJOR_UINT: u8 = 0;

/// Major type of byte strings.
pub const MAJOR_BYTES: u8 = 2;

/// Major type of arrays.
pub const MAJOR_ARRAY: u8 = 4;

/// Major type of tags.
pub const MAJOR_TAG: u8 = 6;

/// The limits a reader works under.
pub ghost struct Limits {
    /// How many heads a reader looks at before it gives up on finding an
    /// item behind tags.
    pub nesting: nat,
    /// The longest byte string a reader accepts.
    pub bytes: nat,
    /// The largest element count a reader accepts in an array header.
    pub array: nat,
}

/// A head as it stands at the start of some input.
pub ghost struct Head {
    /// The major type, 0 to 7.
    pub major: int,
    /// The argument: a value, a length or a count, by major type.
    pub arg: nat,
    /// How many bytes the head takes, 1, 2, 3, 5 or 9.
    pub len: nat,
}

/// The head that announces `n` under `major`, in the shortest form.
pub open spec fn head_bytes(major: u8, n: u16) -> Seq<u8>
    recommends
        major < 8,
{
    if n <= 23 {
        seq![(major * 32 + n) as u8]
    } else if n <= 0xFF {
        seq![(major * 32 + 24) as u8, n as u8]
    } else {
        seq![(major * 32 + 25) as u8, (n / 256) as u8, (n % 256) as u8]
    }
}

/// An unsigned integer on the wire.
pub open spec fn uint_bytes(v: u16) -> Seq<u8> {
    head_bytes(MAJOR_UINT, v)
}

/// The header of an array of `count` elements.
pub open spec fn array_bytes(count: u16) -> Seq<u8> {
    head_bytes(MAJOR_ARRAY, count)
}

/// A byte string on the wire: its length, then its content.
pub open spec fn string_bytes(content: Seq<u8>) -> Seq<u8>
    recommends
        content.len() <= 0xFFFF,
{
    head_bytes(MAJOR_BYTES, content.len() as u16) + content
}

/// The number a sequence of bytes stands for, most significant byte first.
pub open spec fn big_endian(s: Seq<u8>) -> nat
    decreases s.len(),
{
    if s.len() == 0 {
        0
    } else {
        big_endian(s.drop_last()) * 256 + s.last() as nat
    }
}

/// How many argument bytes follow a first byte whose lower five bits are
/// `info`; none for the values that announce no argument.
pub open spec fn arg_width(info: int) -> Option<nat> {
    if info < 24 {
        Some(0)
    } else if info == 24 {
        Some(1)
    } else if info == 25 {
        Some(2)
    } else if info == 26 {
        Some(4)
    } else if info == 27 {
        Some(8)
    } else {
        None
    }
}

/// The head at the start of `s`, if `s` holds a whole one.
pub open spec fn head(s: Seq<u8>) -> Option<Head> {
    if s.len() == 0 {
        None
    } else {
        let info = s[0] as int % 32;
        match arg_width(info) {
            None => None,
            Some(w) => if s.len() < 1 + w {
                None
            } else {
                Some(
                    Head {
                        major: s[0] as int / 32,
                        arg: if w == 0 {
                            info as nat
                        } else {
                            big_endian(s.subrange(1, 1 + w as int))
                        },
                        len: 1 + w,
                    },
                )
            },
        }
    }
}

/// How many bytes of tags stand in front of the first item of `s`. There is
/// no answer where the input ends first, where a tag is malformed, or where
/// `depth` heads have been looked at and all were tags.
pub open spec fn tags_len(s: Seq<u8>, depth: nat) -> Option<nat>
    decreases depth,
{
    if depth == 0 || s.len() == 0 {
        None
    } else if s[0] as int / 32 != MAJOR_TAG as int {
        Some(0)
    } else {
        match head(s) {
            None => None,
            Some(h) => match tags_len(s.skip(h.len as int), (depth - 1) as nat) {
                None => None,
                Some(n) => Some(h.len + n),
            },
        }
    }
}

/// The head of the first item of `s` behind its tags, and where it starts.
pub open spec fn item_head(s: Seq<u8>, depth: nat) -> Option<(Head, nat)> {
    match tags_len(s, depth) {
        None => None,
        Some(t) => match head(s.skip(t as int)) {
            None => None,
            Some(h) => Some((h, t)),
        },
    }
}

/// Reads an unsigned integer of at most 16 bits: its value and the number of
/// bytes it took, tags included. Integers written in a wider form are not
/// accepted, whatever their value.
pub open spec fn read_uint(s: Seq<u8>, lim: Limits) -> Option<(u16, nat)> {
    match item_head(s, lim.nesting) {
        Some((h, t)) if h.major == MAJOR_UINT as int && h.len <= 3 => Some(
            (h.arg as u16, t + h.len),
        ),
        _ => None,
    }
}

/// Reads an array header: the element count and the number of bytes the
/// header took, tags included.
pub open spec fn read_array(s: Seq<u8>, lim: Limits) -> Option<(nat, nat)> {
    match item_head(s, lim.nesting) {
        Some((h, t)) if h.major == MAJOR_ARRAY as int && h.arg <= lim.array => Some(
            (h.arg, t + h.len),
        ),
        _ => None,
    }
}

/// Reads a byte string: its content and the number of bytes it took, tags
/// and length included.
pub open spec fn read_string(s: Seq<u8>, lim: Limits) -> Option<(Seq<u8>, nat)> {
    match item_head(s, lim.nesting) {
        Some((h, t)) if h.major == MAJOR_BYTES as int && h.arg <= lim.bytes && t + h.len + h.arg
            <= s.len() => Some(
            (s.subrange((t + h.len) as int, (t + h.len + h.arg) as int), t + h.len + h.arg),
        ),
        _ => None,
    }
}

/// Tags that were found lie within the input, and an item begins behind
/// them.
pub proof fn lemma_tags_len_bound(s: Seq<u8>, depth: nat)
    ensures
        tags_len(s, depth) matches Some(t) ==> t < s.len(),
    decreases depth,
{
    if depth == 0 || s.len() == 0 {
    } else if s[0] as int / 32 != MAJOR_TAG as int {
    } else {
        match head(s) {
            None => {},
            Some(h) => {
                lemma_tags_len_bound(s.skip(h.len as int), (depth - 1) as nat);
            },
        }
    }
}

/// The head of an item lies within the input.
pub proof fn lemma_item_head_bound(s: Seq<u8>, depth: nat)
    ensures
        item_head(s, depth) matches Some((h, t)) ==> 1 <= h.len && t + h.len <= s.len(),
{
    lemma_tags_len_bound(s, depth);
}

/// An unsigned integer that was read lies within the input.
pub proof fn lemma_read_uint_bound(s: Seq<u8>, lim: Limits)
    ensures
        read_uint(s, lim) matches Some((_, n)) ==> 1 <= n <= s.len(),
{
    lemma_item_head_bound(s, lim.nesting);
}

/// An array header that was read lies within the input, and its count
/// within the reader's limit.
pub proof fn lemma_read_array_bound(s: Seq<u8>, lim: Limits)
    ensures
        read_array(s, lim) matches Some((count, n)) ==> 1 <= n <= s.len() && count <= lim.array,
{
    lemma_item_head_bound(s, lim.nesting);
}

/// A byte string that was read lies within the input, and its length
/// within the reader's limit.
pub proof fn lemma_read_string_bound(s: Seq<u8>, lim: Limits)
    ensures
        read_string(s, lim) matches Some((content, n)) ==> 1 <= n <= s.len() && content.len()
            <= lim.bytes && content.len() < n,
{
    lemma_item_head_bound(s, lim.nesting);
}

/// Dropping `a` bytes and then `b` more is dropping `a + b`.
pub proof fn lemma_skip_skip(s: Seq<u8>, a: nat, b: nat)
    requires
        a + b <= s.len(),
    ensures
        s.skip(a as int).skip(b as int) == s.skip((a + b) as int),
{
    assert(s.skip(a as int).skip(b as int) =~= s.skip((a + b) as int));
}

/// A sequence of one byte stands for that byte.
pub proof fn lemma_big_endian_one(s: Seq<u8>)
    requires
        s.len() == 1,
    ensures
        big_endian(s) == s[0],
{
    reveal_with_fuel(big_endian, 2);
}

/// A sequence of two bytes stands for 256 times the first plus the second.
pub proof fn lemma_big_endian_two(s: Seq<u8>)
    requires
        s.len() == 2,
    ensures
        big_endian(s) == s[0] * 256 + s[1],
{
    reveal_with_fuel(big_endian, 3);
    assert(s.drop_last().drop_last().len() == 0);
    assert(s.drop_last().last() == s[0]);
}

/// A head that was written is the head that is read, whatever follows it.
pub proof fn lemma_head_of_head_bytes(major: u8, n: u16, rest: Seq<u8>)
    requires
        major < 8,
    ensures
        head(head_bytes(major, n) + rest) == Some(
            Head { major: major as int, arg: n as nat, len: head_bytes(major, n).len() },
        ),
{
    let w = head_bytes(major, n);
    let s = w + rest;
    assert(s[0] == w[0]);
    if n <= 23 {
    } else if n <= 0xFF {
        let a = s.subrange(1, 2);
        assert(a[0] == w[1]);
        lemma_big_endian_one(a);
    } else {
        let a = s.subrange(1, 3);
        assert(a[0] == w[1]);
        assert(a[1] == w[2]);
        lemma_big_endian_two(a);
    }
}

/// An item that does not start with a tag starts at once, for any reader that
/// looks at one head or more.
pub proof fn lemma_no_tags(s: Seq<u8>, depth: nat)
    requires
        depth >= 1,
        s.len() >= 1,
        s[0] as int / 32 != MAJOR_TAG as int,
    ensures
        tags_len(s, depth) == Some(0nat),
        s.skip(0) == s,
{
}

/// An unsigned integer that was written is read back, whatever follows it.
pub proof fn lemma_read_uint_of_uint_bytes(v: u16, rest: Seq<u8>, lim: Limits)
    requires
        lim.nesting >= 1,
    ensures
        read_uint(uint_bytes(v) + rest, lim) == Some((v, uint_bytes(v).len())),
{
    let s = uint_bytes(v) + rest;
    assert(s[0] == uint_bytes(v)[0]);
    lemma_no_tags(s, lim.nesting);
    lemma_head_of_head_bytes(MAJOR_UINT, v, rest);
}

/// An array header that was written is read back, whatever follows it, by a
/// reader that accepts the count.
pub proof fn lemma_read_array_of_array_bytes(count: u16, rest: Seq<u8>, lim: Limits)
    requires
        lim.nesting >= 1,
        count <= lim.array,
    ensures
        read_array(array_bytes(count) + rest, lim) == Some(
            (count as nat, array_bytes(count).len()),
        ),
{
    let s = array_bytes(count) + rest;
    assert(s[0] == array_bytes(count)[0]);
    lemma_no_tags(s, lim.nesting);
    lemma_head_of_head_bytes(MAJOR_ARRAY, count, rest);
}

/// A byte string that was written is read back, whatever follows it, by a
/// reader that accepts the length.
pub proof fn lemma_read_string_of_string_bytes(content: Seq<u8>, rest: Seq<u8>, lim: Limits)
    requires
        lim.nesting >= 1,
        content.len() <= 0xFFFF,
        content.len() <= lim.bytes,
    ensures
        read_string(string_bytes(content) + rest, lim) == Some(
            (content, string_bytes(content).len()),
        ),
{
    let n = content.len() as u16;
    let w = head_bytes(MAJOR_BYTES, n);
    let s = string_bytes(content) + rest;
    assert(s == w + (content + rest));
    assert(s[0] == w[0]);
    lemma_no_tags(s, lim.nesting);
    lemma_head_of_head_bytes(MAJOR_BYTES, n, content + rest);
    assert(s.subrange(w.len() as int, (w.len() + content.len()) as int) == content);
}

} // verus!
