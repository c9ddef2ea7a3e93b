//! The layout of values in account data and instruction data: integers
//! little-endian, addresses as their 32 bytes, a sequence behind its length
//! in 32 bits.

use vstd::prelude::*;
use vstd::bytes::{
    spec_u32_from_le_bytes, spec_u32_to_le_bytes, spec_u64_from_le_bytes, spec_u64_to_le_bytes,
    u32_from_le_bytes, u32_to_le_bytes, u64_from_le_bytes, u64_to_le_bytes,
};
use vstd::slice::slice_subrange;
use vstd::utf8::{decode_utf8, valid_utf8};
use crate::address::Address;

verus! {

/// Whether `s` holds `n` bytes from `pos` on.
pub open spec fn holds(s: Seq<u8>, pos: int, n: int) -> bool {
    0 <= pos && 0 <= n && pos + n <= s.len()
}

/// The `n` bytes of `s` from `pos` on.
pub open spec fn field(s: Seq<u8>, pos: int, n: int) -> Seq<u8> {
    s.subrange(pos, pos + n)
}

/// The 32-bit number at `pos`.
pub open spec fn u32_at(s: Seq<u8>, pos: int) -> u32 {
    spec_u32_from_le_bytes(field(s, pos, 4))
}

/// The 64-bit number at `pos`.
pub open spec fn u64_at(s: Seq<u8>, pos: int) -> u64 {
    spec_u64_from_le_bytes(field(s, pos, 8))
}

/// Whether `data` holds `n` bytes from `pos` on.
pub fn has_room(data: &[u8], pos: usize, n: usize) -> (r: bool)
    ensures
        r == holds(data@, pos as int, n as int),
        r ==> pos + n <= usize::MAX,
{
    data.len() >= n && pos <= data.len() - n
}

/// Reads the byte at `pos`, if there is one.
pub fn get_u8(data: &[u8], pos: usize) -> (r: Option<u8>)
    ensures
        r == (if holds(data@, pos as int, 1) {
            Some(data@[pos as int])
        } else {
            None
        }),
        r is Some ==> pos + 1 <= usize::MAX,
{
    if has_room(data, pos, 1) {
        Some(data[pos])
    } else {
        None
    }
}

/// Reads the 32-bit number at `pos`, if four bytes are there.
pub fn get_u32(data: &[u8], pos: usize) -> (r: Option<u32>)
    ensures
        r == (if holds(data@, pos as int, 4) {
            Some(u32_at(data@, pos as int))
        } else {
            None
        }),
        r is Some ==> pos + 4 <= usize::MAX,
{
    if has_room(data, pos, 4) {
        Some(u32_from_le_bytes(slice_subrange(data, pos, pos + 4)))
    } else {
        None
    }
}

/// Reads the 64-bit number at `pos`, if eight bytes are there.
pub fn get_u64(data: &[u8], pos: usize) -> (r: Option<u64>)
    ensures
        r == (if holds(data@, pos as int, 8) {
            Some(u64_at(data@, pos as int))
        } else {
            None
        }),
        r is Some ==> pos + 8 <= usize::MAX,
{
    if has_room(data, pos, 8) {
        Some(u64_from_le_bytes(slice_subrange(data, pos, pos + 8)))
    } else {
        None
    }
}

/// Reads the address at `pos`, if 32 bytes are there.
pub fn get_address(data: &[u8], pos: usize) -> (r: Option<Address>)
    ensures
        match r {
            Some(a) => holds(data@, pos as int, 32) && a@ == field(data@, pos as int, 32) && pos
                + 32 <= usize::MAX,
            None => !holds(data@, pos as int, 32),
        },
{
    if !has_room(data, pos, 32) {
        return None;
    }
    assert(pos + 32 <= usize::MAX);
    let mut bytes: [u8; 32] = [0u8; 32];
    let mut i: usize = 0;
    while i < 32
        invariant
            i <= 32,
            holds(data@, pos as int, 32),
            pos + 32 <= usize::MAX,
            forall|j: int| 0 <= j < i ==> bytes[j] == data@[pos + j],
        decreases 32 - i,
    {
        bytes[i] = data[pos + i];
        i += 1;
    }
    assert(bytes@ =~= field(data@, pos as int, 32));
    Some(Address { bytes })
}

/// Appends a 32-bit number.
pub fn put_u32(out: &mut Vec<u8>, value: u32)
    ensures
        final(out)@ == old(out)@ + spec_u32_to_le_bytes(value),
{
    let mut bytes = u32_to_le_bytes(value);
    out.append(&mut bytes);
}

/// Appends a 64-bit number.
pub fn put_u64(out: &mut Vec<u8>, value: u64)
    ensures
        final(out)@ == old(out)@ + spec_u64_to_le_bytes(value),
{
    let mut bytes = u64_to_le_bytes(value);
    out.append(&mut bytes);
}

/// Appends the bytes of `bytes`.
pub fn put_bytes(out: &mut Vec<u8>, bytes: &[u8])
    ensures
        final(out)@ == old(out)@ + bytes@,
{
    let mut i: usize = 0;
    while i < bytes.len()
        invariant
            i <= bytes.len(),
            out@ == old(out)@ + bytes@.subrange(0, i as int),
        decreases bytes.len() - i,
    {
        out.push(bytes[i]);
        assert(bytes@.subrange(0, i + 1) =~= bytes@.subrange(0, i as int).push(bytes@[i as int]));
        i += 1;
    }
    assert(bytes@.subrange(0, bytes@.len() as int) =~= bytes@);
}

/// Appends an address.
pub fn put_address(out: &mut Vec<u8>, address: &Address)
    ensures
        final(out)@ == old(out)@ + address@,
{
    put_bytes(out, address.bytes.as_slice());
}

/// Makes a string of bytes with `String::from_utf8` of the standard
/// library: the string that the bytes encode, if they are valid UTF-8, and
/// nothing if they are not.
#[verifier::external_body]
pub(crate) fn string_from_utf8(bytes: Vec<u8>) -> (r: Option<String>)
    ensures
        match r {
            Some(text) => valid_utf8(bytes@) && text@ == decode_utf8(bytes@),
            None => !valid_utf8(bytes@),
        },
{
    String::from_utf8(bytes).ok()
}

} // verus!
