use crate::block::Block;
use crate::layout::spec_block_offset;
use crate::layout::spec_num_blocks;
use crate::page::Page;
use vstd::prelude::*;
use vstd::string::StrSliceExecFns;

verus! {

/// The decision core of the file manager: the block-size configuration, the
/// startup signal, and the arithmetic that turns block numbers into
/// byte-exact, block-aligned file addresses. The open-file registry and the
/// system calls acting on these decisions stand outside the library and
/// feed it plain values (file lengths in bytes, directory-existence flags,
/// entry names).
pub struct FileMgr {
    pub blocksize: u32,
    pub is_new: bool,
}

/// True exactly when `name` begins with the reserved scratch prefix `temp`.
pub open spec fn is_temp_name(name: Seq<char>) -> bool {
    name.len() >= 4 && name[0] == 't' && name[1] == 'e' && name[2] == 'm' && name[3] == 'p'
}

/// Decides which directory entries the startup cleanup deletes: exactly
/// those whose name carries the reserved scratch prefix `temp`.
pub fn is_temp_file(name: &str) -> (r: bool)
    ensures
        r == is_temp_name(name@),
{
    if name.unicode_len() >= 4 {
        let c0: char = name.get_char(0);
        let c1: char = name.get_char(1);
        let c2: char = name.get_char(2);
        let c3: char = name.get_char(3);
        c0 == 't' && c1 == 'e' && c2 == 'm' && c3 == 'p'
    } else {
        false
    }
}

impl FileMgr {
    /// Block sizes are strictly positive, so block counts and block-aligned
    /// addresses are well defined.
    pub open spec fn wf(&self) -> bool {
        self.blocksize > 0
    }

    /// A manager for files cut into `blocksize`-byte blocks. `dir_existed`
    /// reports whether the database directory was present before
    /// construction; its negation is recorded as the startup signal.
    pub fn new(blocksize: u32, dir_existed: bool) -> (fm: FileMgr)
        requires
            blocksize > 0,
        ensures
            fm.wf(),
            fm.blocksize == blocksize,
            fm.is_new == !dir_existed,
    {
        FileMgr { blocksize, is_new: !dir_existed }
    }

    /// True exactly when the database directory did not exist prior to
    /// construction; external initialization code uses this signal to
    /// decide whether to bootstrap on-disk structures.
    pub fn is_new(&self) -> (r: bool)
        ensures
            r == self.is_new,
    {
        self.is_new
    }

    /// The fixed number of bytes per block, identical for every file this
    /// manager touches.
    pub fn get_blocksize(&self) -> (r: u32)
        ensures
            r == self.blocksize,
    {
        self.blocksize
    }

    /// The byte address at which `blk` starts on disk. Every address this
    /// layer reads or writes is such a multiple of the block size.
    pub fn block_offset(&self, blk: &Block) -> (r: u64)
        requires
            self.wf(),
        ensures
            r == spec_block_offset(blk.blknum as int, self.blocksize as int),
    {
        proof {
            assert((blk.blknum as int) * (self.blocksize as int) <= 0xffff_ffff * 0xffff_ffff)
                by (nonlinear_arith)
                requires
                    blk.blknum <= 0xffff_ffffu32,
                    self.blocksize <= 0xffff_ffffu32,
            ;
        }
        (blk.blknum as u64) * (self.blocksize as u64)
    }

    /// The number of whole blocks in a file of `file_len` bytes; a trailing
    /// partial block does not count (none occurs while every write is
    /// block-aligned). Block numbers are 32-bit, which bounds the count.
    pub fn get_num_blocks(&self, file_len: u64) -> (r: u32)
        requires
            self.wf(),
            spec_num_blocks(file_len as int, self.blocksize as int) <= u32::MAX,
        ensures
            r == spec_num_blocks(file_len as int, self.blocksize as int),
    {
        (file_len / (self.blocksize as u64)) as u32
    }

    /// Everything appending one block decides, at once: the block naming
    /// the new region, numbered by the current whole-block count; the byte
    /// address at which it starts; and the zero-filled page whose write
    /// there extends the file by exactly one block. This is the only
    /// block-allocation mechanism in the layer.
    pub fn plan_append(&self, fname: String, file_len: u64) -> (r: (Block, u64, Page))
        requires
            self.wf(),
            spec_num_blocks(file_len as int, self.blocksize as int) <= u32::MAX,
        ensures
            r.0.fname == fname,
            r.0.blknum == spec_num_blocks(file_len as int, self.blocksize as int),
            r.1 == spec_block_offset(r.0.blknum as int, self.blocksize as int),
            r.2@ == Seq::new(self.blocksize as nat, |i: int| 0u8),
    {
        let blknum: u32 = self.get_num_blocks(file_len);
        let blk: Block = Block::new(fname, blknum);
        let offset: u64 = self.block_offset(&blk);
        let page: Page = Page::new(self.blocksize);
        (blk, offset, page)
    }
}

} // verus!
