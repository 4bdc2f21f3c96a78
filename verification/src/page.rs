use crate::layout::spec_get_bytes;
use crate::layout::spec_get_int;
use crate::layout::spec_get_string;
use crate::layout::spec_set_bytes;
use crate::layout::spec_set_int;
use crate::layout::spec_set_string;
use crate::layout::spec_write_bytes;
use vstd::bytes::spec_u32_to_le_bytes;
use vstd::bytes::u32_from_le_bytes;
use vstd::bytes::u32_to_le_bytes;
use vstd::prelude::*;
use vstd::slice::slice_subrange;
use vstd::slice::slice_to_vec;
use vstd::utf8::decode_utf8;
use vstd::utf8::encode_utf8;
use vstd::utf8::encode_utf8_decode_utf8;
use vstd::utf8::valid_utf8;

verus! {

/// An in-memory byte buffer, the unit exchanged with block storage. Every
/// accessor takes an explicit byte offset; there is no implicit cursor. A
/// read whose span exceeds the buffer yields no value, and a write whose
/// span exceeds the buffer reports failure and leaves the buffer unchanged:
/// no access ever touches memory past the buffer.
pub struct Page {
    buffer: Vec<u8>,
}

impl View for Page {
    type V = Seq<u8>;

    closed spec fn view(&self) -> Seq<u8> {
        self.buffer@
    }
}

/// Relies on `String::from_utf8`: it succeeds exactly on valid UTF-8 input,
/// and then returns the string whose UTF-8 encoding is the given bytes.
#[verifier::external_body]
fn bytes_to_string(bytes: Vec<u8>) -> (r: Option<String>)
    ensures
        r is Some <==> valid_utf8(bytes@),
        r matches Some(s) ==> encode_utf8(s@) == bytes@,
{
    String::from_utf8(bytes).ok()
}

impl Page {
    /// A zero-filled page of exactly `blocksize` bytes.
    pub fn new(blocksize: u32) -> (p: Page)
        ensures
            p@ == Seq::new(blocksize as nat, |i: int| 0u8),
    {
        let buffer: Vec<u8> = vec![0u8; blocksize as usize];
        proof {
            assert(buffer@ =~= Seq::new(blocksize as nat, |i: int| 0u8));
        }
        Page { buffer }
    }

    /// A page wrapping an existing byte sequence verbatim.
    pub fn new_bytes(buffer: Vec<u8>) -> (p: Page)
        ensures
            p@ == buffer@,
    {
        Page { buffer }
    }

    /// Read-only access to the raw buffer, for the file manager's I/O;
    /// other callers use the typed accessors.
    pub fn get_buffer(&self) -> (r: &Vec<u8>)
        ensures
            r@ == self@,
    {
        &self.buffer
    }

    /// The integer stored as four little-endian bytes at `offset`, or no
    /// value when the four-byte span exceeds the buffer.
    pub fn get_int(&self, offset: u32) -> (r: Option<u32>)
        ensures
            r == spec_get_int(self@, offset as int),
    {
        if self.buffer.len() >= 4 && offset as usize <= self.buffer.len() - 4 {
            let s: &[u8] = slice_subrange(
                self.buffer.as_slice(),
                offset as usize,
                offset as usize + 4,
            );
            Some(u32_from_le_bytes(s))
        } else {
            None
        }
    }

    /// Writes `n` as four little-endian bytes at `offset`. Returns whether
    /// the write fit within the buffer; on failure the buffer is unchanged.
    pub fn set_int(&mut self, offset: u32, n: u32) -> (r: bool)
        ensures
            r == (offset + 4 <= old(self)@.len()),
            r ==> final(self)@ == spec_set_int(old(self)@, offset as int, n),
            !r ==> final(self)@ == old(self)@,
    {
        if self.buffer.len() >= 4 && offset as usize <= self.buffer.len() - 4 {
            let bytes: Vec<u8> = u32_to_le_bytes(n);
            let o: usize = offset as usize;
            self.buffer[o] = bytes[0];
            self.buffer[o + 1] = bytes[1];
            self.buffer[o + 2] = bytes[2];
            self.buffer[o + 3] = bytes[3];
            proof {
                assert(self@ =~= spec_write_bytes(old(self)@, offset as int, spec_u32_to_le_bytes(n)));
            }
            true
        } else {
            false
        }
    }

    /// The byte blob stored at `offset`: a four-byte little-endian length
    /// prefix, then that many raw bytes. No value when either the prefix or
    /// the payload would exceed the buffer.
    pub fn get_bytes(&self, offset: u32) -> (r: Option<Vec<u8>>)
        ensures
            match r {
                Some(v) => spec_get_bytes(self@, offset as int) == Some(v@),
                None => spec_get_bytes(self@, offset as int) is None,
            },
    {
        match self.get_int(offset) {
            Some(len) => {
                let blen: usize = self.buffer.len();
                let start: usize = offset as usize + 4;
                if len as u64 <= blen as u64 - start as u64 {
                    let end: usize = start + len as usize;
                    let s: &[u8] = slice_subrange(self.buffer.as_slice(), start, end);
                    Some(slice_to_vec(s))
                } else {
                    None
                }
            },
            None => None,
        }
    }

    /// Writes a four-byte little-endian length prefix and then `bytes`
    /// itself at `offset`. Returns whether the whole field fit within the
    /// buffer; on failure the buffer is unchanged.
    pub fn set_bytes(&mut self, offset: u32, bytes: &[u8]) -> (r: bool)
        ensures
            r == (bytes@.len() <= u32::MAX && offset + 4 + bytes@.len() <= old(self)@.len()),
            r ==> final(self)@ == spec_set_bytes(old(self)@, offset as int, bytes@),
            !r ==> final(self)@ == old(self)@,
    {
        if bytes.len() as u64 <= u32::MAX as u64 && offset as u64 + 4 + bytes.len() as u64
            <= self.buffer.len() as u64 {
            let wrote_prefix: bool = self.set_int(offset, bytes.len() as u32);
            proof {
                assert(wrote_prefix);
            }
            let ghost prefixed: Seq<u8> = spec_set_int(
                old(self)@,
                offset as int,
                bytes@.len() as u32,
            );
            let blen: usize = self.buffer.len();
            let start: usize = offset as usize + 4;
            let mut i: usize = 0;
            while i < bytes.len()
                invariant
                    i <= bytes@.len(),
                    start == offset + 4,
                    start + bytes@.len() <= blen,
                    blen == prefixed.len(),
                    self@.len() == blen,
                    self@ == spec_write_bytes(prefixed, start as int, bytes@.subrange(0, i as int)),
                decreases bytes@.len() - i,
            {
                self.buffer[start + i] = bytes[i];
                proof {
                    assert(self@ =~= spec_write_bytes(
                        prefixed,
                        start as int,
                        bytes@.subrange(0, i + 1),
                    ));
                }
                i += 1;
            }
            proof {
                assert(bytes@.subrange(0, bytes@.len() as int) =~= bytes@);
            }
            true
        } else {
            false
        }
    }

    /// The string stored at `offset`: the byte blob there decoded as UTF-8.
    /// No value when the blob is absent or its bytes are not valid UTF-8.
    pub fn get_string(&self, offset: u32) -> (r: Option<String>)
        ensures
            match r {
                Some(s) => spec_get_string(self@, offset as int) == Some(s@),
                None => spec_get_string(self@, offset as int) is None,
            },
    {
        match self.get_bytes(offset) {
            Some(bytes) => {
                let ghost stored: Seq<u8> = bytes@;
                let r: Option<String> = bytes_to_string(bytes);
                proof {
                    broadcast use encode_utf8_decode_utf8;

                    if r is Some {
                        assert(decode_utf8(stored) == r->0@);
                    }
                }
                r
            },
            None => None,
        }
    }

    /// Writes `string` at `offset` as the length-prefixed blob of its UTF-8
    /// bytes. Returns whether the whole field fit within the buffer; on
    /// failure the buffer is unchanged.
    pub fn set_string(&mut self, offset: u32, string: String) -> (r: bool)
        ensures
            r == (encode_utf8(string@).len() <= u32::MAX && offset + 4 + encode_utf8(string@).len()
                <= old(self)@.len()),
            r ==> final(self)@ == spec_set_string(old(self)@, offset as int, string@),
            !r ==> final(self)@ == old(self)@,
    {
        let bytes: &[u8] = string.as_str().as_bytes();
        self.set_bytes(offset, bytes)
    }
}

} // verus!
