use lightdb::block::Block;
use lightdb::error::Error;
use lightdb::filemgr::is_temp_file;
use lightdb::filemgr::FileMgr;

#[test]
fn block_accessors() {
    let blk = Block::new(String::from("testfile"), 2);
    assert_eq!(blk.get_fname(), "testfile");
    assert_eq!(blk.get_blknum(), 2);
}

#[test]
fn block_identity() {
    let a = Block::new(String::from("f"), 1);
    let b = Block::new(String::from("f"), 1);
    let c = Block::new(String::from("f"), 2);
    let d = Block::new(String::from("g"), 1);
    assert!(a == b);
    assert!(a != c);
    assert!(a != d);
}

#[test]
fn startup_signal() {
    // is_new is true exactly when the directory did not exist beforehand
    let fresh = FileMgr::new(400, false);
    assert!(fresh.is_new());
    let existing = FileMgr::new(400, true);
    assert!(!existing.is_new());
    assert_eq!(fresh.get_blocksize(), 400);
}

#[test]
fn block_offsets_are_aligned() {
    let fm = FileMgr::new(400, true);
    assert_eq!(fm.block_offset(&Block::new(String::from("f"), 0)), 0);
    assert_eq!(fm.block_offset(&Block::new(String::from("f"), 1)), 400);
    assert_eq!(fm.block_offset(&Block::new(String::from("f"), 2)), 800);
    let big = FileMgr::new(u32::MAX, true);
    assert_eq!(
        big.block_offset(&Block::new(String::from("f"), u32::MAX)),
        u32::MAX as u64 * u32::MAX as u64
    );
}

#[test]
fn num_blocks_from_length() {
    let fm = FileMgr::new(400, true);
    assert_eq!(fm.get_num_blocks(0), 0);
    assert_eq!(fm.get_num_blocks(399), 0);
    assert_eq!(fm.get_num_blocks(400), 1);
    assert_eq!(fm.get_num_blocks(800), 2);
}

#[test]
fn append_numbering() {
    // block size 400: two appends get blocks 0 and 1, then the count is 2
    let fm = FileMgr::new(400, false);
    let mut file_len: u64 = 0;

    let (blk0, off0, page0) = fm.plan_append(String::from("testfile"), file_len);
    assert_eq!(blk0.get_blknum(), 0);
    assert_eq!(off0, 0);
    assert_eq!(page0.get_buffer().as_slice(), &[0u8; 400]);
    file_len = off0 + fm.get_blocksize() as u64;

    let (blk1, off1, _page1) = fm.plan_append(String::from("testfile"), file_len);
    assert_eq!(blk1.get_blknum(), 1);
    assert_eq!(blk1.get_fname(), "testfile");
    assert_eq!(off1, 400);
    file_len = off1 + fm.get_blocksize() as u64;

    assert_eq!(fm.get_num_blocks(file_len), 2);
}

#[test]
fn temp_prefix_detection() {
    assert!(is_temp_file("temp"));
    assert!(is_temp_file("tempfile"));
    assert!(is_temp_file("temp.1"));
    assert!(!is_temp_file("tem"));
    assert!(!is_temp_file(""));
    assert!(!is_temp_file("data"));
    assert!(!is_temp_file("xtemp"));
    assert!(!is_temp_file("Temp"));
}

#[test]
fn error_kinds_are_distinct() {
    let kinds = [
        Error::FileNotFound,
        Error::FileCreationFailed,
        Error::SeekFailed,
        Error::ReadFailed,
        Error::WriteFailed,
        Error::LockPoisoned,
    ];
    for (i, a) in kinds.iter().enumerate() {
        for (j, b) in kinds.iter().enumerate() {
            assert_eq!(a == b, i == j);
        }
    }
}
