use vstd::bytes::*;
use vstd::prelude::*;
use vstd::utf8::*;

verus! {

/// The number of whole blocks in a file of `file_len` bytes; a trailing
/// partial block does not count.
pub open spec fn spec_num_blocks(file_len: int, blocksize: int) -> int
    recommends
        blocksize > 0,
{
    file_len / blocksize
}

/// The byte offset at which block `blknum` starts: block `n` occupies the
/// byte range `[n * blocksize, (n + 1) * blocksize)`.
pub open spec fn spec_block_offset(blknum: int, blocksize: int) -> int {
    blknum * blocksize
}

/// `buf` with `data` laid over it starting at `offset`; every byte outside
/// the written span keeps its old value, and the length is unchanged.
pub open spec fn spec_write_bytes(buf: Seq<u8>, offset: int, data: Seq<u8>) -> Seq<u8>
    recommends
        0 <= offset,
        offset + data.len() <= buf.len(),
{
    Seq::new(
        buf.len(),
        |i: int|
            if offset <= i < offset + data.len() {
                data[i - offset]
            } else {
                buf[i]
            },
    )
}

/// The integer stored at `offset`: four raw little-endian bytes; no value
/// when the span `offset + 4` exceeds the buffer.
pub open spec fn spec_get_int(buf: Seq<u8>, offset: int) -> Option<u32> {
    if 0 <= offset && offset + 4 <= buf.len() {
        Some(spec_u32_from_le_bytes(buf.subrange(offset, offset + 4)))
    } else {
        None
    }
}

/// `buf` with `v` written at `offset` as four little-endian bytes.
pub open spec fn spec_set_int(buf: Seq<u8>, offset: int, v: u32) -> Seq<u8>
    recommends
        0 <= offset,
        offset + 4 <= buf.len(),
{
    spec_write_bytes(buf, offset, spec_u32_to_le_bytes(v))
}

/// The byte blob stored at `offset`: a four-byte little-endian length
/// prefix, then that many raw bytes; no value when either the prefix or the
/// payload would exceed the buffer.
pub open spec fn spec_get_bytes(buf: Seq<u8>, offset: int) -> Option<Seq<u8>> {
    match spec_get_int(buf, offset) {
        Some(len) => if offset + 4 + len <= buf.len() {
            Some(buf.subrange(offset + 4, offset + 4 + len))
        } else {
            None
        },
        None => None,
    }
}

/// `buf` with `data` written at `offset` as a length-prefixed blob.
pub open spec fn spec_set_bytes(buf: Seq<u8>, offset: int, data: Seq<u8>) -> Seq<u8>
    recommends
        0 <= offset,
        data.len() <= u32::MAX,
        offset + 4 + data.len() <= buf.len(),
{
    spec_write_bytes(spec_set_int(buf, offset, data.len() as u32), offset + 4, data)
}

/// The string stored at `offset`: the byte blob there decoded as UTF-8; no
/// value when the blob is absent or its bytes are not valid UTF-8.
pub open spec fn spec_get_string(buf: Seq<u8>, offset: int) -> Option<Seq<char>> {
    match spec_get_bytes(buf, offset) {
        Some(b) => if valid_utf8(b) {
            Some(decode_utf8(b))
        } else {
            None
        },
        None => None,
    }
}

/// `buf` with `s` written at `offset` as the length-prefixed blob of its
/// UTF-8 encoding.
pub open spec fn spec_set_string(buf: Seq<u8>, offset: int, s: Seq<char>) -> Seq<u8>
    recommends
        0 <= offset,
        encode_utf8(s).len() <= u32::MAX,
        offset + 4 + encode_utf8(s).len() <= buf.len(),
{
    spec_set_bytes(buf, offset, encode_utf8(s))
}

/// A write changes no byte outside its span, and no length: fields stored
/// at disjoint offsets never disturb one another.
pub proof fn lemma_write_outside_span(buf: Seq<u8>, offset: int, data: Seq<u8>, i: int)
    requires
        0 <= offset,
        offset + data.len() <= buf.len(),
        0 <= i < buf.len(),
        !(offset <= i < offset + data.len()),
    ensures
        spec_write_bytes(buf, offset, data).len() == buf.len(),
        spec_write_bytes(buf, offset, data)[i] == buf[i],
{
}

/// Round trip: an integer written within bounds is read back unchanged.
pub proof fn lemma_int_round_trip(buf: Seq<u8>, offset: int, v: u32)
    requires
        0 <= offset,
        offset + 4 <= buf.len(),
    ensures
        spec_get_int(spec_set_int(buf, offset, v), offset) == Some(v),
{
    lemma_auto_spec_u32_to_from_le_bytes();
    assert(spec_set_int(buf, offset, v).subrange(offset, offset + 4) =~= spec_u32_to_le_bytes(v));
}

/// Round trip: a byte blob written within bounds is read back unchanged.
pub proof fn lemma_bytes_round_trip(buf: Seq<u8>, offset: int, data: Seq<u8>)
    requires
        0 <= offset,
        data.len() <= u32::MAX,
        offset + 4 + data.len() <= buf.len(),
    ensures
        spec_get_bytes(spec_set_bytes(buf, offset, data), offset) == Some(data),
{
    lemma_auto_spec_u32_to_from_le_bytes();
    let out = spec_set_bytes(buf, offset, data);
    assert(out.subrange(offset, offset + 4) =~= spec_u32_to_le_bytes(data.len() as u32));
    assert(spec_get_int(out, offset) == Some(data.len() as u32));
    assert(out.subrange(offset + 4, offset + 4 + data.len() as u32) =~= data);
}

/// Round trip: a string written within bounds is read back unchanged.
pub proof fn lemma_string_round_trip(buf: Seq<u8>, offset: int, s: Seq<char>)
    requires
        0 <= offset,
        encode_utf8(s).len() <= u32::MAX,
        offset + 4 + encode_utf8(s).len() <= buf.len(),
    ensures
        spec_get_string(spec_set_string(buf, offset, s), offset) == Some(s),
{
    broadcast use encode_utf8_valid_utf8, encode_utf8_decode_utf8;

    lemma_bytes_round_trip(buf, offset, encode_utf8(s));
}

/// Allocation numbering: a file holding exactly `k` whole blocks numbers
/// its next appended block `k`, and once that block is written the count is
/// `k + 1`; so the first append on an empty file is numbered 0 and the k-th
/// append is numbered k - 1.
pub proof fn lemma_append_allocation(blocksize: int, k: int)
    requires
        blocksize > 0,
        0 <= k,
    ensures
        spec_num_blocks(k * blocksize, blocksize) == k,
        spec_num_blocks((k + 1) * blocksize, blocksize) == k + 1,
{
    assert((k * blocksize) / blocksize == k) by (nonlinear_arith)
        requires
            blocksize > 0,
            0 <= k,
    ;
    assert(((k + 1) * blocksize) / blocksize == k + 1) by (nonlinear_arith)
        requires
            blocksize > 0,
            0 <= k,
    ;
}

} // verus!
