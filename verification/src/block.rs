use vstd::prelude::*;

verus! {

/// Identifies one fixed-size region of one file: the `blknum`-th block of
/// the file named `fname`. A block owns no resources, is immutable once
/// constructed, and is freely copyable by value.
#[derive(Debug, Hash, Eq, Clone)]
pub struct Block {
    pub fname: String,
    pub blknum: u32,
}

impl Block {
    pub fn new(fname: String, blknum: u32) -> (blk: Block)
        ensures
            blk.fname == fname,
            blk.blknum == blknum,
    {
        Block { fname, blknum }
    }

    pub fn get_fname(&self) -> (r: &str)
        ensures
            r@ == self.fname@,
    {
        self.fname.as_str()
    }

    pub fn get_blknum(&self) -> (r: u32)
        ensures
            r == self.blknum,
    {
        self.blknum
    }
}

/// Two blocks denote the same region exactly when both the filename and the
/// block number match; distinct blocks of one file never compare equal.
impl PartialEq for Block {
    fn eq(&self, other: &Block) -> (r: bool) {
        self.fname == other.fname && self.blknum == other.blknum
    }
}

impl vstd::std_specs::cmp::PartialEqSpecImpl for Block {
    open spec fn obeys_eq_spec() -> bool {
        true
    }

    open spec fn eq_spec(&self, other: &Block) -> bool {
        self.fname@ == other.fname@ && self.blknum == other.blknum
    }
}

} // verus!
