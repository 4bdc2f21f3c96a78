//! Lowest layer of a disk-based data store: block identifiers, fixed-size
//! page buffers with a typed little-endian layout, and the block-arithmetic
//! core of a file manager that moves pages between memory and disk.
pub mod block;
pub mod error;
pub mod filemgr;
pub mod layout;
pub mod page;
