use sdmmc::block::{be_u16, be_u32, from_be, CmdBlock, DataBlock};

fn counting() -> [u8; 512] {
    let mut bytes = [0u8; 512];
    for (i, byte) in bytes.iter_mut().enumerate() {
        *byte = (i * 7 + i / 256) as u8;
    }
    bytes
}

#[test]
fn new_blocks_are_zero() {
    assert_eq!(DataBlock::new(), DataBlock([0; 128]));
    assert_eq!(CmdBlock::new(), CmdBlock([0; 16]));
    assert_eq!(DataBlock::new().to_bytes(), [0u8; 512]);
}

#[test]
fn first_byte_of_a_word_is_the_low_one() {
    let mut block = DataBlock::new();
    block.0[1] = 0x4433_2211;
    assert_eq!(block.byte(4), 0x11);
    assert_eq!(block.byte(5), 0x22);
    assert_eq!(block.byte(6), 0x33);
    assert_eq!(block.byte(7), 0x44);
    assert_eq!(block.byte(3), 0);
    assert_eq!(block.byte(8), 0);
}

#[test]
fn set_byte_changes_one_byte() {
    let mut block = DataBlock([0xFFFF_FFFF; 128]);
    block.set_byte(0, 0x12);
    block.set_byte(5, 0x34);
    block.set_byte(10, 0x56);
    block.set_byte(511, 0x78);
    assert_eq!(block.0[0], 0xFFFF_FF12);
    assert_eq!(block.0[1], 0xFFFF_34FF);
    assert_eq!(block.0[2], 0xFF56_FFFF);
    assert_eq!(block.0[127], 0x78FF_FFFF);
    assert_eq!(block.0[3], 0xFFFF_FFFF);
}

#[test]
fn stored_byte_is_read() {
    let before = DataBlock::from_bytes(&counting());
    for index in [0, 1, 2, 3, 257, 511] {
        let mut after = before.clone();
        after.set_byte(index, 0xA5);
        assert_eq!(after.byte(index), 0xA5);
        for j in 0..512 {
            assert!(j == index || after.byte(j) == before.byte(j));
        }
        for w in 0..128 {
            assert!(w == index / 4 || after.0[w] == before.0[w]);
        }
    }
}

#[test]
fn bytes_come_back() {
    let bytes = counting();
    let block = DataBlock::from_bytes(&bytes);
    assert_eq!(block.to_bytes(), bytes);
    assert_eq!(block.0[0], u32::from_le_bytes([bytes[0], bytes[1], bytes[2], bytes[3]]));
}

#[test]
fn bytes_determine_the_block() {
    let block = DataBlock::from_bytes(&counting());
    assert_eq!(DataBlock::from_bytes(&block.to_bytes()), block);
    let mut other = block.clone();
    assert_eq!(other, block);
    other.set_byte(300, block.byte(300) ^ 1);
    assert_ne!(other, block);
    assert_ne!(other.to_bytes(), block.to_bytes());
}

#[test]
fn big_endian_numbers() {
    assert_eq!(be_u16(0x12, 0x34), 0x1234);
    assert_eq!(be_u16(0xFF, 0xFF), 0xFFFF);
    assert_eq!(be_u32(0x12, 0x34, 0x56, 0x78), 0x1234_5678);
    assert_eq!(from_be(0x1234_5678), 0x7856_3412);
    assert_eq!(from_be(0xFF), 0xFF00_0000);
}

#[test]
fn command_block_turns_its_words() {
    let mut block = CmdBlock::new();
    block[0] = 0x0403_0201;
    block[15] = 0xAABB_CCDD;
    assert_eq!(block.byte(0), 1);
    assert_eq!(block.byte(63), 0xAA);
    assert_eq!(block.len(), 16);
    let mut turned = block.clone();
    turned.swap_words();
    assert_eq!(turned[0], 0x0102_0304);
    assert_eq!(turned[1], 0);
    assert_eq!(turned[15], 0xDDCC_BBAA);
    turned.swap_words();
    assert_eq!(turned, block);
}
