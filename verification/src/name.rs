//! Interface names as the kernel holds them: a fixed-width field of bytes in
//! which a terminator marks the end of the name.

use vstd::prelude::*;
use vstd::slice::slice_subrange;
use vstd::utf8::{
    char_u32_cast, decode_utf8, encode_scalar, encode_utf8, encode_utf8_decode_utf8,
    encode_utf8_valid_utf8, valid_utf8,
};
use crate::error::Error;
use crate::sys;

verus! {

/// The width of the kernel's name field, terminator included.
pub const CAPACITY: usize = 16;

/// `bytes[n]` is a terminator and no byte before it is one.
pub open spec fn ends_at(bytes: Seq<u8>, n: int) -> bool {
    &&& 0 <= n < bytes.len()
    &&& bytes[n] == 0
    &&& forall|i: int| 0 <= i < n ==> bytes[i] != 0
}

/// `bytes` holds a terminator.
pub open spec fn terminated(bytes: Seq<u8>) -> bool {
    exists|n: int| ends_at(bytes, n)
}

/// The bytes of the name: those before the first terminator.
pub open spec fn label(bytes: Seq<u8>) -> Seq<u8>
    recommends
        terminated(bytes),
{
    bytes.take(choose|n: int| ends_at(bytes, n))
}

/// `bytes` is a name field in good order: of the kernel's width, terminated,
/// and with UTF-8 text before the terminator.
pub open spec fn well_formed(bytes: Seq<u8>) -> bool {
    &&& bytes.len() == CAPACITY
    &&& terminated(bytes)
    &&& valid_utf8(label(bytes))
}

/// The name that a field in good order holds, as text.
pub open spec fn text(bytes: Seq<u8>) -> Seq<char>
    recommends
        well_formed(bytes),
{
    decode_utf8(label(bytes))
}

/// The encoded name leaves room for a terminator.
pub open spec fn fits(encoded: Seq<u8>) -> bool {
    encoded.len() < CAPACITY
}

/// The encoded name holds no terminator.
pub open spec fn plain(encoded: Seq<u8>) -> bool {
    forall|i: int| 0 <= i < encoded.len() ==> encoded[i] != 0
}

/// The name holds no NUL character.
pub open spec fn clean(name: Seq<char>) -> bool {
    forall|i: int| 0 <= i < name.len() ==> name[i] != '\0'
}

/// A name can be stored in a name field without loss.
pub open spec fn encodable(name: Seq<char>) -> bool {
    fits(encode_utf8(name)) && plain(encode_utf8(name))
}

/// The failure that a name which cannot be stored is rejected with.
pub open spec fn fault(name: Seq<char>) -> Error
    recommends
        !encodable(name),
{
    if fits(encode_utf8(name)) {
        Error::EmbeddedNul
    } else {
        Error::TooLong
    }
}

/// `encoded` followed by terminators up to the field's width.
pub open spec fn padded(encoded: Seq<u8>) -> Seq<u8>
    recommends
        fits(encoded),
{
    Seq::new(CAPACITY as nat, |i: int| if i < encoded.len() { encoded[i] } else { 0u8 })
}

/// The name field that stores `name`.
pub open spec fn field_of(name: Seq<char>) -> Seq<u8>
    recommends
        encodable(name),
{
    padded(encode_utf8(name))
}

/// A name is rejected for one of two reasons: its encoding is too long for
/// the field, or it holds a NUL character. Both are failures of encoding.
pub proof fn lemma_fault(name: Seq<char>)
    ensures
        encodable(name) <==> fits(encode_utf8(name)) && clean(name),
        fault(name).encoding(),
        fault(name) == Error::TooLong <==> !fits(encode_utf8(name)),
{
    lemma_plain_is_clean(name);
}

/// A field ends in one place only.
pub proof fn lemma_end_unique(bytes: Seq<u8>, m: int, n: int)
    requires
        ends_at(bytes, m),
        ends_at(bytes, n),
    ensures
        m == n,
{
    if m < n {
        assert(bytes[m] != 0);
    } else if n < m {
        assert(bytes[n] != 0);
    }
}

/// Where a field ends, its name ends.
pub proof fn lemma_label_at(bytes: Seq<u8>, n: int)
    requires
        ends_at(bytes, n),
    ensures
        terminated(bytes),
        label(bytes) == bytes.take(n),
{
    let m = choose|m: int| ends_at(bytes, m);
    lemma_end_unique(bytes, m, n);
}

/// Padding a name that fits and holds no terminator stores exactly that name.
pub proof fn lemma_padded_label(encoded: Seq<u8>)
    requires
        fits(encoded),
        plain(encoded),
    ensures
        ends_at(padded(encoded), encoded.len() as int),
        label(padded(encoded)) == encoded,
{
    let field = padded(encoded);
    let n = encoded.len() as int;
    assert(ends_at(field, n));
    lemma_label_at(field, n);
    assert(field.take(n) =~= encoded);
}

/// Storing a name and reading the field back gives the name unchanged.
pub proof fn lemma_round_trip(name: Seq<char>)
    requires
        encodable(name),
    ensures
        well_formed(field_of(name)),
        text(field_of(name)) == name,
{
    lemma_padded_label(encode_utf8(name));
    encode_utf8_valid_utf8(name);
    encode_utf8_decode_utf8(name);
}

/// The encoding of a single character holds a terminator only if the
/// character is NUL.
proof fn lemma_scalar_plain(c: u32)
    ensures
        plain(encode_scalar(c)) <==> c != 0,
{
    assert(c <= 0x7F ==> ((c & 0x7F) as u8 == 0 <==> c == 0)) by (bit_vector);
    assert((0xC0u8 | ((c >> 6) & 0x1F) as u8) != 0) by (bit_vector);
    assert((0xE0u8 | ((c >> 12) & 0x0F) as u8) != 0) by (bit_vector);
    assert((0xF0u8 | ((c >> 18) & 0x7) as u8) != 0) by (bit_vector);
    assert((0x80u8 | (c & 0x3F) as u8) != 0) by (bit_vector);
    assert((0x80u8 | ((c >> 6) & 0x3F) as u8) != 0) by (bit_vector);
    assert((0x80u8 | ((c >> 12) & 0x3F) as u8) != 0) by (bit_vector);
    let bytes = encode_scalar(c);
    if c == 0 {
        assert(bytes[0] == 0);
    }
}

/// Bytes put together hold a terminator only if one of the parts does.
proof fn lemma_plain_concat(a: Seq<u8>, b: Seq<u8>)
    ensures
        plain(a + b) <==> plain(a) && plain(b),
{
    if plain(a + b) {
        assert forall|i: int| 0 <= i < a.len() implies a[i] != 0 by {
            assert((a + b)[i] == a[i]);
        }
        assert forall|i: int| 0 <= i < b.len() implies b[i] != 0 by {
            assert((a + b)[a.len() + i] == b[i]);
        }
    }
}

/// The encoding of a name holds a terminator exactly if the name holds a NUL
/// character: no other character has a zero byte in its encoding.
pub proof fn lemma_plain_is_clean(name: Seq<char>)
    ensures
        plain(encode_utf8(name)) <==> clean(name),
    decreases name.len(),
{
    if name.len() > 0 {
        let rest = name.drop_first();
        let first = name[0] as u32;
        lemma_plain_is_clean(rest);
        lemma_scalar_plain(first);
        lemma_plain_concat(encode_scalar(first), encode_utf8(rest));
        assert(first != 0 <==> name[0] != '\0') by {
            char_u32_cast(name[0], first);
        }
        if clean(name) {
            assert forall|i: int| 0 <= i < rest.len() implies rest[i] != '\0' by {
                assert(rest[i] == name[i + 1]);
            }
        }
        if clean(rest) && name[0] != '\0' {
            assert forall|i: int| 0 <= i < name.len() implies name[i] != '\0' by {
                if i > 0 {
                    assert(name[i] == rest[i - 1]);
                }
            }
        }
    }
}

/// Stores `name` in a name field.
///
/// A name that is too long for the field, or that holds a terminator, is
/// rejected: nothing is cut off.
pub fn encode(name: &str) -> (r: Result<[u8; 16], Error>)
    ensures
        r is Ok <==> encodable(name@),
        r matches Ok(field) ==> field@ == field_of(name@),
        r matches Err(e) ==> e == fault(name@),
{
    let bytes = name.as_bytes();
    if bytes.len() >= CAPACITY {
        return Err(Error::TooLong);
    }
    let mut field = [0u8; 16];
    let mut i: usize = 0;
    while i < bytes.len()
        invariant
            bytes@ == encode_utf8(name@),
            bytes@.len() < CAPACITY,
            i <= bytes@.len(),
            forall|k: int| 0 <= k < i ==> bytes@[k] != 0,
            forall|k: int| 0 <= k < i ==> field@[k] == bytes@[k],
            forall|k: int| i <= k < CAPACITY ==> field@[k] == 0,
        decreases bytes@.len() - i,
    {
        let byte = bytes[i];
        if byte == 0 {
            return Err(Error::EmbeddedNul);
        }
        field[i] = byte;
        i += 1;
    }
    assert(field@ =~= padded(bytes@));
    Ok(field)
}

/// Finds the first terminator of a name field.
pub fn end(field: &[u8; 16]) -> (at: Option<usize>)
    ensures
        at is Some <==> terminated(field@),
        at matches Some(n) ==> ends_at(field@, n as int),
{
    let mut i: usize = 0;
    while i < CAPACITY
        invariant
            i <= CAPACITY,
            forall|k: int| 0 <= k < i ==> field@[k] != 0,
        decreases CAPACITY - i,
    {
        if field[i] == 0 {
            proof {
                lemma_label_at(field@, i as int);
            }
            return Some(i);
        }
        i += 1;
    }
    assert forall|n: int| !ends_at(field@, n) by {
        if 0 <= n < CAPACITY {
            assert(field@[n] != 0);
        }
    }
    None
}

/// Reads the name that a name field holds, if the field is in good order.
pub fn decode<'a>(field: &'a [u8; 16]) -> (r: Option<&'a str>)
    ensures
        r is Some <==> well_formed(field@),
        r matches Some(name) ==> name@ == text(field@),
{
    match end(field) {
        None => None,
        Some(n) => {
            let bytes = slice_subrange(field.as_slice(), 0, n);
            proof {
                lemma_label_at(field@, n as int);
                assert(bytes@ =~= label(field@));
            }
            let found = sys::utf8_text(bytes);
            proof {
                if let Some(name) = found {
                    encode_utf8_decode_utf8(name@);
                }
            }
            found
        },
    }
}

} // verus!
