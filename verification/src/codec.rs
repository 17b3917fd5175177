//! The binary encoding shared by instructions and records: integers in
//! little-endian order, and byte fields behind a four-byte count.

use crate::error::CodecError;
use vstd::prelude::*;
use vstd::slice::*;

verus! {

/// The four bytes of `value`, lowest first.
pub open spec fn u32_le_bytes(value: u32) -> Seq<u8> {
    seq![
        (value % 0x100) as u8,
        (value / 0x100 % 0x100) as u8,
        (value / 0x1_0000 % 0x100) as u8,
        (value / 0x100_0000 % 0x100) as u8,
    ]
}

/// The integer that four bytes stand for, lowest first.
pub open spec fn u32_from_le_bytes(bytes: Seq<u8>) -> u32
    recommends
        bytes.len() == 4,
{
    (bytes[0] + bytes[1] * 0x100 + bytes[2] * 0x1_0000 + bytes[3] * 0x100_0000) as u32
}

/// The eight bytes of `value`, lowest first.
pub open spec fn u64_le_bytes(value: u64) -> Seq<u8> {
    seq![
        (value % 0x100) as u8,
        (value / 0x100 % 0x100) as u8,
        (value / 0x1_0000 % 0x100) as u8,
        (value / 0x100_0000 % 0x100) as u8,
        (value / 0x1_0000_0000 % 0x100) as u8,
        (value / 0x100_0000_0000 % 0x100) as u8,
        (value / 0x1_0000_0000_0000 % 0x100) as u8,
        (value / 0x100_0000_0000_0000 % 0x100) as u8,
    ]
}

/// The integer that eight bytes stand for, lowest first.
pub open spec fn u64_from_le_bytes(bytes: Seq<u8>) -> u64
    recommends
        bytes.len() == 8,
{
    (bytes[0] + bytes[1] * 0x100 + bytes[2] * 0x1_0000 + bytes[3] * 0x100_0000 + bytes[4]
        * 0x1_0000_0000 + bytes[5] * 0x100_0000_0000 + bytes[6] * 0x1_0000_0000_0000 + bytes[7]
        * 0x100_0000_0000_0000) as u64
}

/// An integer of four bytes is read back from its bytes, and four bytes are
/// the bytes of the integer they stand for.
pub proof fn lemma_u32_le_bytes(value: u32, bytes: Seq<u8>)
    ensures
        u32_le_bytes(value).len() == 4,
        u32_from_le_bytes(u32_le_bytes(value)) == value,
        bytes.len() == 4 ==> u32_le_bytes(u32_from_le_bytes(bytes)) == bytes,
{
    assert(value % 0x100 + (value / 0x100 % 0x100) * 0x100 + (value / 0x1_0000 % 0x100) * 0x1_0000
        + (value / 0x100_0000 % 0x100) * 0x100_0000 == value) by (bit_vector);
    if bytes.len() == 4 {
        let (b0, b1, b2, b3) = (bytes[0], bytes[1], bytes[2], bytes[3]);
        assert(({
            let w: u32 = (b0 as u32 + b1 as u32 * 0x100 + b2 as u32 * 0x1_0000 + b3 as u32
                * 0x100_0000) as u32;
            &&& w % 0x100 == b0
            &&& w / 0x100 % 0x100 == b1
            &&& w / 0x1_0000 % 0x100 == b2
            &&& w / 0x100_0000 % 0x100 == b3
        })) by (bit_vector);
        assert(u32_le_bytes(u32_from_le_bytes(bytes)) =~= bytes);
    }
}

/// An integer of eight bytes is read back from its bytes, and eight bytes
/// are the bytes of the integer they stand for.
pub proof fn lemma_u64_le_bytes(value: u64, bytes: Seq<u8>)
    ensures
        u64_le_bytes(value).len() == 8,
        u64_from_le_bytes(u64_le_bytes(value)) == value,
        bytes.len() == 8 ==> u64_le_bytes(u64_from_le_bytes(bytes)) == bytes,
{
    assert(value % 0x100 + (value / 0x100 % 0x100) * 0x100 + (value / 0x1_0000 % 0x100) * 0x1_0000
        + (value / 0x100_0000 % 0x100) * 0x100_0000 + (value / 0x1_0000_0000 % 0x100)
        * 0x1_0000_0000 + (value / 0x100_0000_0000 % 0x100) * 0x100_0000_0000 + (value
        / 0x1_0000_0000_0000 % 0x100) * 0x1_0000_0000_0000 + (value / 0x100_0000_0000_0000 % 0x100)
        * 0x100_0000_0000_0000 == value) by (bit_vector);
    if bytes.len() == 8 {
        let (b0, b1, b2, b3) = (bytes[0], bytes[1], bytes[2], bytes[3]);
        let (b4, b5, b6, b7) = (bytes[4], bytes[5], bytes[6], bytes[7]);
        assert(({
            let w: u64 = (b0 as u64 + b1 as u64 * 0x100 + b2 as u64 * 0x1_0000 + b3 as u64
                * 0x100_0000 + b4 as u64 * 0x1_0000_0000 + b5 as u64 * 0x100_0000_0000 + b6 as u64
                * 0x1_0000_0000_0000 + b7 as u64 * 0x100_0000_0000_0000) as u64;
            &&& w % 0x100 == b0
            &&& w / 0x100 % 0x100 == b1
            &&& w / 0x1_0000 % 0x100 == b2
            &&& w / 0x100_0000 % 0x100 == b3
            &&& w / 0x1_0000_0000 % 0x100 == b4
            &&& w / 0x100_0000_0000 % 0x100 == b5
            &&& w / 0x1_0000_0000_0000 % 0x100 == b6
            &&& w / 0x100_0000_0000_0000 % 0x100 == b7
        })) by (bit_vector);
        assert(u64_le_bytes(u64_from_le_bytes(bytes)) =~= bytes);
    }
}

/// The encoding of a byte field: its length as four bytes, then the bytes.
pub open spec fn blob(data: Seq<u8>) -> Seq<u8>
    recommends
        data.len() <= u32::MAX,
{
    u32_le_bytes(data.len() as u32) + data
}

/// The byte field of which `bytes` is the whole encoding, if there is one:
/// the count must be complete and say exactly how many bytes follow it.
pub open spec fn blob_decode(bytes: Seq<u8>) -> Option<Seq<u8>> {
    if bytes.len() >= 4 && u32_from_le_bytes(bytes.take(4)) == bytes.len() - 4 {
        Some(bytes.skip(4))
    } else {
        None
    }
}

/// A byte field that a count can describe is read back from its encoding.
pub proof fn lemma_blob_round_trip(data: Seq<u8>)
    requires
        data.len() <= u32::MAX,
    ensures
        blob(data).len() == data.len() + 4,
        blob_decode(blob(data)) == Some(data),
{
    lemma_u32_le_bytes(data.len() as u32, Seq::empty());
    let count = u32_le_bytes(data.len() as u32);
    assert(blob(data).take(4) =~= count);
    assert(blob(data).skip(4) =~= data);
}

/// Bytes that decode to a byte field are the encoding of that field, and of
/// no other.
pub proof fn lemma_blob_canonical(bytes: Seq<u8>)
    requires
        blob_decode(bytes) is Some,
    ensures
        blob_decode(bytes)->0.len() == bytes.len() - 4,
        blob_decode(bytes)->0.len() <= u32::MAX,
        blob(blob_decode(bytes)->0) == bytes,
{
    lemma_u32_le_bytes(0, bytes.take(4));
    let count = bytes.take(4);
    let data = bytes.skip(4);
    assert(u32_le_bytes(u32_from_le_bytes(count)) == count);
    assert(count + data =~= bytes);
}

/// Appends the four bytes of `value`, lowest first.
pub fn write_u32(out: &mut Vec<u8>, value: u32)
    ensures
        final(out)@ == old(out)@ + u32_le_bytes(value),
{
    out.push((value % 0x100) as u8);
    out.push((value / 0x100 % 0x100) as u8);
    out.push((value / 0x1_0000 % 0x100) as u8);
    out.push((value / 0x100_0000 % 0x100) as u8);
    assert(out@ =~= old(out)@ + u32_le_bytes(value));
}

/// Appends the eight bytes of `value`, lowest first.
pub fn write_u64(out: &mut Vec<u8>, value: u64)
    ensures
        final(out)@ == old(out)@ + u64_le_bytes(value),
{
    out.push((value % 0x100) as u8);
    out.push((value / 0x100 % 0x100) as u8);
    out.push((value / 0x1_0000 % 0x100) as u8);
    out.push((value / 0x100_0000 % 0x100) as u8);
    out.push((value / 0x1_0000_0000 % 0x100) as u8);
    out.push((value / 0x100_0000_0000 % 0x100) as u8);
    out.push((value / 0x1_0000_0000_0000 % 0x100) as u8);
    out.push((value / 0x100_0000_0000_0000 % 0x100) as u8);
    assert(out@ =~= old(out)@ + u64_le_bytes(value));
}

/// Appends a byte field: its count, then its bytes. Fails, and appends
/// nothing, where the field is too long for the count.
pub fn write_blob(out: &mut Vec<u8>, data: &[u8]) -> (r: Result<(), CodecError>)
    ensures
        data@.len() <= u32::MAX ==> r is Ok && final(out)@ == old(out)@ + blob(data@),
        data@.len() > u32::MAX ==> r matches Err(CodecError::Oversized),
        data@.len() > u32::MAX ==> final(out)@ == old(out)@,
{
    if data.len() > 0xffff_ffff {
        return Err(CodecError::Oversized);
    }
    write_u32(out, data.len() as u32);
    out.extend_from_slice(data);
    assert(out@ =~= old(out)@ + blob(data@));
    Ok(())
}

/// The integer whose four bytes stand at `at`, lowest first. Fails where
/// fewer than four bytes stand there.
pub fn read_u32(input: &[u8], at: usize) -> (r: Result<u32, CodecError>)
    ensures
        at + 4 <= input@.len() ==> (r matches Ok(value) && value == u32_from_le_bytes(
            input@.subrange(at as int, at + 4),
        )),
        at + 4 > input@.len() ==> r matches Err(CodecError::Malformed),
{
    if input.len() < 4 || at > input.len() - 4 {
        return Err(CodecError::Malformed);
    }
    let value: u32 = input[at] as u32 + input[at + 1] as u32 * 0x100 + input[at + 2] as u32
        * 0x1_0000 + input[at + 3] as u32 * 0x100_0000;
    Ok(value)
}

/// The integer whose eight bytes stand at `at`, lowest first. Fails where
/// fewer than eight bytes stand there.
pub fn read_u64(input: &[u8], at: usize) -> (r: Result<u64, CodecError>)
    ensures
        at + 8 <= input@.len() ==> (r matches Ok(value) && value == u64_from_le_bytes(
            input@.subrange(at as int, at + 8),
        )),
        at + 8 > input@.len() ==> r matches Err(CodecError::Malformed),
{
    if input.len() < 8 || at > input.len() - 8 {
        return Err(CodecError::Malformed);
    }
    let low: u64 = input[at] as u64 + input[at + 1] as u64 * 0x100 + input[at + 2] as u64
        * 0x1_0000 + input[at + 3] as u64 * 0x100_0000;
    let high: u64 = input[at + 4] as u64 + input[at + 5] as u64 * 0x100 + input[at + 6] as u64
        * 0x1_0000 + input[at + 7] as u64 * 0x100_0000;
    Ok(low + high * 0x1_0000_0000)
}

/// The byte field whose encoding fills `input` from `at` to the end. Fails
/// where the bytes from `at` on are not the whole encoding of a byte field,
/// or where `at` is behind the end.
pub fn read_blob(input: &[u8], at: usize) -> (r: Result<Vec<u8>, CodecError>)
    ensures
        at <= input@.len() ==> match blob_decode(input@.skip(at as int)) {
            Some(data) => r matches Ok(v) && v@ == data,
            None => r matches Err(CodecError::Malformed),
        },
        at > input@.len() ==> r matches Err(CodecError::Malformed),
{
    if at > input.len() {
        return Err(CodecError::Malformed);
    }
    let rest = slice_subrange(input, at, input.len());
    assert(rest@ =~= input@.skip(at as int));
    if rest.len() < 4 {
        return Err(CodecError::Malformed);
    }
    let count: u32 = read_u32(rest, 0)?;
    assert(rest@.subrange(0, 4) =~= rest@.take(4));
    if count as usize != rest.len() - 4 {
        return Err(CodecError::Malformed);
    }
    let data = slice_to_vec(slice_subrange(rest, 4, rest.len()));
    assert(data@ =~= rest@.skip(4));
    Ok(data)
}

} // verus!
