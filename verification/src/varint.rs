//! Variable-length integers as QUIC writes them.
//!
//! The two high bits of the first byte give the width of the field (1, 2,
//! 4 or 8 bytes); the remaining bits, read big-endian, give the value.

use vstd::prelude::*;
use crate::error::Error;

verus! {

/// Width in bytes of the field that starts with `first`.
pub open spec fn varint_len(first: u8) -> nat {
    if first < 0x40 {
        1
    } else if first < 0x80 {
        2
    } else if first < 0xc0 {
        4
    } else {
        8
    }
}

/// The number that `bytes` spell when read big-endian.
pub open spec fn be_value(bytes: Seq<u8>) -> nat
    decreases bytes.len(),
{
    if bytes.len() == 0 {
        0
    } else {
        be_value(bytes.drop_last()) * 256 + bytes.last() as nat
    }
}

/// The field with the two width bits of its first byte cleared.
pub open spec fn without_prefix(field: Seq<u8>) -> Seq<u8>
    recommends
        field.len() > 0,
{
    field.update(0, (field[0] % 64) as u8)
}

/// The value of a field: its bytes read big-endian, the two width bits
/// left out.
pub open spec fn varint_value(field: Seq<u8>) -> nat
    recommends
        field.len() > 0,
{
    be_value(without_prefix(field))
}

/// The integer at the start of `bytes` and the number of bytes that it
/// occupies, or `None` where `bytes` ends before the integer does.
pub open spec fn decode(bytes: Seq<u8>) -> Option<(nat, nat)> {
    if bytes.len() == 0 || bytes.len() < varint_len(bytes[0]) {
        None
    } else {
        let len = varint_len(bytes[0]);
        Some((varint_value(bytes.subrange(0, len as int)), len))
    }
}

/// The least number that `n` bytes with a cleared prefix cannot spell.
pub open spec fn capacity(n: nat) -> nat
    decreases n,
{
    if n <= 1 {
        64
    } else {
        capacity((n - 1) as nat) * 256
    }
}

/// A field of up to eight bytes holds less than 2^62.
pub proof fn lemma_capacity_fits(n: nat)
    requires
        1 <= n <= 8,
    ensures
        capacity(n) <= 0x4000_0000_0000_0000,
{
    reveal_with_fuel(capacity, 9);
}

/// The widths that a field can have.
pub open spec fn is_width(width: nat) -> bool {
    width == 1 || width == 2 || width == 4 || width == 8
}

/// The first byte of an empty field of the given width: the two bits that
/// announce the width, and nothing else.
pub open spec fn width_prefix(width: nat) -> nat {
    if width == 1 {
        0x00
    } else if width == 2 {
        0x40
    } else if width == 4 {
        0x80
    } else {
        0xc0
    }
}

/// The `n` low-order bytes of `value`, big-endian.
pub open spec fn be_bytes(value: nat, n: nat) -> Seq<u8>
    decreases n,
{
    if n == 0 {
        Seq::empty()
    } else {
        be_bytes(value / 256, (n - 1) as nat).push((value % 256) as u8)
    }
}

/// The field of `width` bytes that holds `value`.
pub open spec fn varint_field(value: nat, width: nat) -> Seq<u8>
    recommends
        is_width(width),
        value < capacity(width),
{
    let bytes = be_bytes(value, width);
    bytes.update(0, (bytes[0] + width_prefix(width)) as u8)
}

/// Bytes written big-endian are read back big-endian: `n` bytes hold every
/// number below `capacity(n)`, with the two high bits of the first byte to
/// spare.
pub proof fn lemma_be_roundtrip(value: nat, n: nat)
    requires
        1 <= n,
        value < capacity(n),
    ensures
        be_bytes(value, n).len() == n,
        be_bytes(value, n)[0] < 64,
        be_value(be_bytes(value, n)) == value,
    decreases n,
{
    let bytes = be_bytes(value, n);
    let init = be_bytes(value / 256, (n - 1) as nat);
    assert(bytes.drop_last() =~= init);
    if n == 1 {
        assert(init =~= Seq::<u8>::empty());
        reveal_with_fuel(be_value, 2);
        reveal_with_fuel(be_bytes, 2);
    } else {
        lemma_be_roundtrip(value / 256, (n - 1) as nat);
        assert(bytes[0] == init[0]);
    }
}

/// What is written is read back: the field of a width that holds a value
/// decodes to that value and that width, whatever follows the field.
pub proof fn lemma_varint_roundtrip(value: nat, width: nat, rest: Seq<u8>)
    requires
        is_width(width),
        value < capacity(width),
    ensures
        varint_field(value, width).len() == width,
        varint_len(varint_field(value, width)[0]) == width,
        varint_value(varint_field(value, width)) == value,
        decode(varint_field(value, width) + rest) == Some((value, width)),
{
    lemma_be_roundtrip(value, width);
    let bytes = be_bytes(value, width);
    let field = varint_field(value, width);
    assert(without_prefix(field) =~= bytes);
    assert((field + rest).subrange(0, width as int) =~= field);
}

/// Computes the width of a field from its first byte.
pub fn varint_parse_len(first: u8) -> (len: usize)
    ensures
        len == varint_len(first),
{
    if first < 0x40 {
        1
    } else if first < 0x80 {
        2
    } else if first < 0xc0 {
        4
    } else {
        8
    }
}

/// Decodes the integer at the start of `bytes`. Returns the value and the
/// number of bytes it occupies; fails with `BufferTooShort`, and only so,
/// where `bytes` is empty or ends before the integer does.
pub fn decode_varint(bytes: &[u8]) -> (r: Result<(u64, usize), Error>)
    ensures
        match r {
            Ok((value, len)) => decode(bytes@) == Some((value as nat, len as nat)),
            Err(e) => e == Error::BufferTooShort && decode(bytes@) is None,
        },
{
    if bytes.len() == 0 {
        return Err(Error::BufferTooShort);
    }
    let first = bytes[0];
    let len = varint_parse_len(first);
    if bytes.len() < len {
        return Err(Error::BufferTooShort);
    }
    let ghost field = without_prefix(bytes@.subrange(0, len as int));
    let mut value: u64 = (first % 64) as u64;
    let mut i: usize = 1;
    proof {
        assert(field.subrange(0, 1).drop_last() =~= Seq::<u8>::empty());
        reveal_with_fuel(be_value, 2);
    }
    while i < len
        invariant
            1 <= i <= len <= 8,
            len <= bytes.len(),
            field == without_prefix(bytes@.subrange(0, len as int)),
            value == be_value(field.subrange(0, i as int)),
            value < capacity(i as nat),
        decreases len - i,
    {
        proof {
            lemma_capacity_fits((i + 1) as nat);
            assert(field.subrange(0, i + 1).drop_last() =~= field.subrange(0, i as int));
        }
        value = value * 256 + bytes[i] as u64;
        i += 1;
    }
    proof {
        assert(field.subrange(0, len as int) =~= field);
    }
    Ok((value, len))
}

} // verus!
