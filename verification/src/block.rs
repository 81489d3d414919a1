//! Memory blocks that the SDMMC controller fills and drains by DMA.
//!
//! The controller works on 32-bit words, while cards define their registers as
//! byte strings. A block is therefore stored as words, and read through
//! `bytes()`: the bytes in the order in which they crossed the bus, with the
//! first byte of a word in its low bits.
use vstd::prelude::*;

verus! {

/// Byte `k` of a word as it lies in memory: byte 0 is the low one.
pub open spec fn word_byte(word: u32, k: int) -> u8 {
    if k == 0 {
        (word & 0xFF) as u8
    } else if k == 1 {
        ((word >> 8u32) & 0xFF) as u8
    } else if k == 2 {
        ((word >> 16u32) & 0xFF) as u8
    } else {
        ((word >> 24u32) & 0xFF) as u8
    }
}

/// The bytes of a string of words, in memory order.
pub open spec fn words_bytes(words: Seq<u32>) -> Seq<u8> {
    Seq::new(words.len() * 4, |i: int| word_byte(words[i / 4], i % 4))
}

/// The number that a byte string spells with its most significant byte first.
pub open spec fn be_value(bytes: Seq<u8>) -> nat
    decreases bytes.len(),
{
    if bytes.len() == 0 {
        0
    } else {
        be_value(bytes.drop_last()) * 256 + bytes.last() as nat
    }
}

/// Writes out `be_value` for a string of two bytes.
pub proof fn lemma_be_value_2(bytes: Seq<u8>)
    requires
        bytes.len() == 2,
    ensures
        be_value(bytes) == bytes[0] * 0x100 + bytes[1],
{
    reveal_with_fuel(be_value, 3);
}

/// Writes out `be_value` for a string of four bytes.
pub proof fn lemma_be_value_4(bytes: Seq<u8>)
    requires
        bytes.len() == 4,
    ensures
        be_value(bytes) == bytes[0] * 0x100_0000 + bytes[1] * 0x1_0000 + bytes[2] * 0x100
            + bytes[3],
{
    reveal_with_fuel(be_value, 5);
}

/// Prepending four bytes to four others shifts them up by 32 bits.
pub proof fn lemma_be_value_8(bytes: Seq<u8>)
    requires
        bytes.len() == 8,
    ensures
        be_value(bytes) == be_value(bytes.subrange(0, 4)) * 0x1_0000_0000 + be_value(
            bytes.subrange(4, 8),
        ),
{
    lemma_be_value_4(bytes.subrange(0, 4));
    lemma_be_value_4(bytes.subrange(4, 8));
    reveal_with_fuel(be_value, 9);
}

/// A block is known by its bytes: no two blocks have the same ones. With that, a block
/// that is made from the bytes of another one is equal to it.
pub proof fn law_bytes_determine_block(first: DataBlock, second: DataBlock)
    requires
        first.bytes() == second.bytes(),
    ensures
        first == second,
{
    assert forall|i: int| 0 <= i < 128 implies first.0@[i] == second.0@[i] by {
        let a: u32 = first.0@[i];
        let b: u32 = second.0@[i];
        assert forall|k: int| 0 <= k < 4 implies word_byte(a, k) == word_byte(b, k) by {
            let j = 4 * i + k;
            assert(j / 4 == i && j % 4 == k);
            assert(first.bytes()[j] == word_byte(first.0@[j / 4], j % 4));
            assert(second.bytes()[j] == word_byte(second.0@[j / 4], j % 4));
        }
        lemma_word_of_bytes(a, b);
    }
    assert(first.0@ =~= second.0@);
    assert(first.0 =~= second.0);
}

/// A byte that is stored in a block is read back from it. Every other byte is as before, and so
/// is every word but the one that the byte lies in.
pub proof fn law_stored_byte_is_read(before: DataBlock, after: DataBlock, index: int, value: u8)
    requires
        0 <= index < 512,
        after.bytes() == before.bytes().update(index, value),
    ensures
        after.bytes()[index] == value,
        forall|j: int|
            0 <= j < 512 && j != index ==> #[trigger] after.bytes()[j] == before.bytes()[j],
        forall|w: int|
            0 <= w < 128 && w != index / 4 ==> #[trigger] after.0@[w] == before.0@[w],
{
    assert forall|w: int| 0 <= w < 128 && w != index / 4 implies #[trigger] after.0@[w]
        == before.0@[w] by {
        assert forall|k: int| 0 <= k < 4 implies word_byte(after.0@[w], k) == word_byte(
            before.0@[w],
            k,
        ) by {
            let j = 4 * w + k;
            assert(j / 4 == w && j % 4 == k);
            assert(after.bytes()[j] == before.bytes()[j]);
            assert(after.bytes()[j] == word_byte(after.0@[j / 4], j % 4));
            assert(before.bytes()[j] == word_byte(before.0@[j / 4], j % 4));
        }
        lemma_word_of_bytes(after.0@[w], before.0@[w]);
    }
}

/// A word is known by its bytes.
proof fn lemma_word_of_bytes(a: u32, b: u32)
    requires
        forall|k: int| 0 <= k < 4 ==> word_byte(a, k) == word_byte(b, k),
    ensures
        a == b,
{
    assert(word_byte(a, 0) == word_byte(b, 0));
    assert(word_byte(a, 1) == word_byte(b, 1));
    assert(word_byte(a, 2) == word_byte(b, 2));
    assert(word_byte(a, 3) == word_byte(b, 3));
    assert(a == b) by (bit_vector)
        requires
            (a & 0xFF) as u8 == (b & 0xFF) as u8,
            ((a >> 8u32) & 0xFF) as u8 == ((b >> 8u32) & 0xFF) as u8,
            ((a >> 16u32) & 0xFF) as u8 == ((b >> 16u32) & 0xFF) as u8,
            ((a >> 24u32) & 0xFF) as u8 == ((b >> 24u32) & 0xFF) as u8,
    ;
}

/// The byte at position `k` (0 to 3) of a word.
fn byte_of(word: u32, k: usize) -> (r: u8)
    requires
        k < 4,
    ensures
        r == word_byte(word, k as int),
{
    if k == 0 {
        (word & 0xFF) as u8
    } else if k == 1 {
        ((word >> 8u32) & 0xFF) as u8
    } else if k == 2 {
        ((word >> 16u32) & 0xFF) as u8
    } else {
        ((word >> 24u32) & 0xFF) as u8
    }
}

/// `word` with the byte at position `k` (0 to 3) replaced.
fn with_byte(word: u32, k: usize, value: u8) -> (r: u32)
    requires
        k < 4,
    ensures
        forall|j: int| 0 <= j < 4 ==> word_byte(r, j) == if j == k {
            value
        } else {
            word_byte(word, j)
        },
{
    let v: u32 = value as u32;
    let r: u32 = if k == 0 {
        (word & 0xFFFF_FF00) | v
    } else if k == 1 {
        (word & 0xFFFF_00FF) | (v << 8u32)
    } else if k == 2 {
        (word & 0xFF00_FFFF) | (v << 16u32)
    } else {
        (word & 0x00FF_FFFF) | (v << 24u32)
    };
    proof {
        if k == 0 {
            assert((r & 0xFF) as u8 == value && (r >> 8u32) & 0xFF == (word >> 8u32) & 0xFF && (r
                >> 16u32) & 0xFF == (word >> 16u32) & 0xFF && (r >> 24u32) & 0xFF == (word
                >> 24u32) & 0xFF) by (bit_vector)
                requires
                    r == (word & 0xFFFF_FF00) | v,
                    v == value as u32,
            ;
        } else if k == 1 {
            assert(r & 0xFF == word & 0xFF && ((r >> 8u32) & 0xFF) as u8 == value && (r >> 16u32)
                & 0xFF == (word >> 16u32) & 0xFF && (r >> 24u32) & 0xFF == (word >> 24u32) & 0xFF)
                by (bit_vector)
                requires
                    r == (word & 0xFFFF_00FF) | (v << 8u32),
                    v == value as u32,
            ;
        } else if k == 2 {
            assert(r & 0xFF == word & 0xFF && (r >> 8u32) & 0xFF == (word >> 8u32) & 0xFF && ((r
                >> 16u32) & 0xFF) as u8 == value && (r >> 24u32) & 0xFF == (word >> 24u32) & 0xFF)
                by (bit_vector)
                requires
                    r == (word & 0xFF00_FFFF) | (v << 16u32),
                    v == value as u32,
            ;
        } else {
            assert(r & 0xFF == word & 0xFF && (r >> 8u32) & 0xFF == (word >> 8u32) & 0xFF && (r
                >> 16u32) & 0xFF == (word >> 16u32) & 0xFF && ((r >> 24u32) & 0xFF) as u8 == value)
                by (bit_vector)
                requires
                    r == (word & 0x00FF_FFFF) | (v << 24u32),
                    v == value as u32,
            ;
        }
    }
    r
}

/// The number that two bytes spell, most significant byte first.
pub fn be_u16(b0: u8, b1: u8) -> (r: u16)
    ensures
        r == be_value(seq![b0, b1]),
{
    proof {
        lemma_be_value_2(seq![b0, b1]);
    }
    b0 as u16 * 0x100 + b1 as u16
}

/// The number that four bytes spell, most significant byte first.
pub fn be_u32(b0: u8, b1: u8, b2: u8, b3: u8) -> (r: u32)
    ensures
        r == be_value(seq![b0, b1, b2, b3]),
{
    proof {
        lemma_be_value_4(seq![b0, b1, b2, b3]);
    }
    b0 as u32 * 0x100_0000 + b1 as u32 * 0x1_0000 + b2 as u32 * 0x100 + b3 as u32
}

/// The number that a word spells when its first byte in memory is the most significant.
pub open spec fn be_word(word: u32) -> u32 {
    be_value(words_bytes(seq![word])) as u32
}

/// A word that was received most significant byte first, in the order of the
/// processor.
pub fn from_be(word: u32) -> (r: u32)
    ensures
        r == be_word(word),
        r == be_value(words_bytes(seq![word])),
{
    assert(words_bytes(seq![word]) =~= seq![
        word_byte(word, 0),
        word_byte(word, 1),
        word_byte(word, 2),
        word_byte(word, 3),
    ]);
    be_u32(byte_of(word, 0), byte_of(word, 1), byte_of(word, 2), byte_of(word, 3))
}

/// Aligned data block for SDMMC transfers: 512 bytes, held as words.
#[derive(Debug, PartialEq, Eq)]
pub struct DataBlock(pub [u32; 128]);

impl DataBlock {
    /// The block's 512 bytes in bus order.
    pub open spec fn bytes(self) -> Seq<u8> {
        words_bytes(self.0@)
    }

    /// Create a new DataBlock
    pub fn new() -> (r: Self)
        ensures
            r.0@ == Seq::new(128, |i: int| 0u32),
            r.bytes() == Seq::new(512, |i: int| 0u8),
    {
        let r = DataBlock([0u32; 128]);
        proof {
            assert(0u32 & 0xFF == 0 && (0u32 >> 8u32) & 0xFF == 0 && (0u32 >> 16u32) & 0xFF == 0
                && (0u32 >> 24u32) & 0xFF == 0) by (bit_vector);
            assert(r.0@ =~= Seq::new(128, |i: int| 0u32));
            assert(r.bytes() =~= Seq::new(512, |i: int| 0u8));
        }
        r
    }

    /// A block with the given bytes.
    pub fn from_bytes(bytes: &[u8; 512]) -> (r: Self)
        ensures
            r.bytes() == bytes@,
    {
        let mut r = DataBlock::new();
        let mut i: usize = 0;
        while i < 512
            invariant
                i <= 512,
                r.bytes().subrange(0, i as int) == bytes@.subrange(0, i as int),
            decreases 512 - i,
        {
            let ghost before = r.bytes();
            r.set_byte(i, bytes[i]);
            assert(r.bytes().subrange(0, i + 1) =~= before.subrange(0, i as int).push(
                bytes@[i as int],
            ));
            assert(bytes@.subrange(0, i + 1) =~= bytes@.subrange(0, i as int).push(
                bytes@[i as int],
            ));
            i += 1;
        }
        assert(r.bytes().subrange(0, 512) =~= r.bytes());
        assert(bytes@.subrange(0, 512) =~= bytes@);
        r
    }

    /// The block's bytes.
    pub fn to_bytes(&self) -> (r: [u8; 512])
        ensures
            r@ == self.bytes(),
    {
        let mut r = [0u8; 512];
        let mut i: usize = 0;
        while i < 512
            invariant
                i <= 512,
                forall|j: int| 0 <= j < i ==> r@[j] == self.bytes()[j],
            decreases 512 - i,
        {
            r[i] = self.byte(i);
            i += 1;
        }
        assert(r@ =~= self.bytes());
        r
    }

    /// The byte at `index`.
    pub fn byte(&self, index: usize) -> (r: u8)
        requires
            index < 512,
        ensures
            r == self.bytes()[index as int],
    {
        byte_of(self.0[index / 4], index % 4)
    }

    /// Replaces the byte at `index`. All other bytes, and all words but the one that the
    /// byte lies in, stay as they are.
    pub fn set_byte(&mut self, index: usize, value: u8)
        requires
            index < 512,
        ensures
            final(self).bytes() == old(self).bytes().update(index as int, value),
            forall|w: int|
                0 <= w < 128 && w != index / 4 ==> #[trigger] final(self).0@[w] == old(self).0@[w],
    {
        self.0[index / 4] = with_byte(self.0[index / 4], index % 4, value);
        assert(self.bytes() =~= old(self).bytes().update(index as int, value));
    }
}

impl Clone for DataBlock {
    fn clone(&self) -> (r: Self)
        ensures
            r == *self,
    {
        DataBlock(self.0)
    }
}

/// Command Block buffer for SDMMC command transfers.
///
/// This is a 16-word array, exposed so that DMA compatible memory can be used if
/// required.
#[derive(Debug, PartialEq, Eq)]
pub struct CmdBlock(pub [u32; 16]);

impl CmdBlock {
    /// The block's 64 bytes in bus order.
    pub open spec fn bytes(self) -> Seq<u8> {
        words_bytes(self.0@)
    }

    /// The block with every word turned from bus order to the order of the processor.
    pub open spec fn be_words(self) -> CmdBlock {
        CmdBlock(
            [
                be_word(self.0[0]),
                be_word(self.0[1]),
                be_word(self.0[2]),
                be_word(self.0[3]),
                be_word(self.0[4]),
                be_word(self.0[5]),
                be_word(self.0[6]),
                be_word(self.0[7]),
                be_word(self.0[8]),
                be_word(self.0[9]),
                be_word(self.0[10]),
                be_word(self.0[11]),
                be_word(self.0[12]),
                be_word(self.0[13]),
                be_word(self.0[14]),
                be_word(self.0[15]),
            ],
        )
    }

    /// Creates a new instance of CmdBlock
    pub fn new() -> (r: Self)
        ensures
            r.0@ == Seq::new(16, |i: int| 0u32),
    {
        let r = CmdBlock([0u32; 16]);
        assert(r.0@ =~= Seq::new(16, |i: int| 0u32));
        r
    }

    /// The byte at `index`.
    pub fn byte(&self, index: usize) -> (r: u8)
        requires
            index < 64,
        ensures
            r == self.bytes()[index as int],
    {
        byte_of(self.0[index / 4], index % 4)
    }

    /// Turns every word from bus order to the order of the processor.
    pub fn swap_words(&mut self)
        ensures
            *final(self) == old(self).be_words(),
            forall|i: int| 0 <= i < 16 ==> final(self).0@[i] == be_word(old(self).0@[i]),
    {
        let mut i: usize = 0;
        while i < 16
            invariant
                i <= 16,
                forall|j: int|
                    0 <= j < 16 ==> self.0@[j] == if j < i {
                        be_word(old(self).0@[j])
                    } else {
                        old(self).0@[j]
                    },
            decreases 16 - i,
        {
            self.0[i] = from_be(self.0[i]);
            i += 1;
        }
        assert(self.0@ =~= old(self).be_words().0@);
        assert(self.0 =~= old(self).be_words().0);
    }
}

impl Clone for CmdBlock {
    fn clone(&self) -> (r: Self)
        ensures
            r == *self,
    {
        CmdBlock(self.0)
    }
}

impl core::ops::Deref for CmdBlock {
    type Target = [u32; 16];

    fn deref(&self) -> (r: &Self::Target)
        ensures
            *r == self.0,
    {
        &self.0
    }
}

impl core::ops::DerefMut for CmdBlock {
    fn deref_mut(&mut self) -> (r: &mut Self::Target)
        ensures
            *r == old(self).0,
            *final(r) == final(self).0,
    {
        &mut self.0
    }
}

/// The value of a word is spelled by its bytes, with the first one as the least significant.
proof fn lemma_word_value(word: u32)
    ensures
        word == word_byte(word, 0) + 0x100 * word_byte(word, 1) + 0x1_0000 * word_byte(word, 2)
            + 0x100_0000 * word_byte(word, 3),
{
    assert(word == (word & 0xFF) as u8 + 0x100 * (((word >> 8u32) & 0xFF) as u8) + 0x1_0000 * (((
    word >> 16u32) & 0xFF) as u8) + 0x100_0000 * (((word >> 24u32) & 0xFF) as u8)) by (bit_vector);
}

/// A data block has four bytes for each of its words, and each word is spelled by its bytes
/// with the first one as the least significant.
pub proof fn law_words_are_spelled_by_bytes(block: DataBlock)
    ensures
        block.bytes().len() == 512,
        forall|w: int|
            0 <= w < 128 ==> #[trigger] block.0@[w] == block.bytes()[4 * w] + 0x100 * block.bytes()[
            4 * w + 1] + 0x1_0000 * block.bytes()[4 * w + 2] + 0x100_0000 * block.bytes()[4 * w
                + 3],
{
    assert forall|w: int| 0 <= w < 128 implies #[trigger] block.0@[w] == block.bytes()[4 * w]
        + 0x100 * block.bytes()[4 * w + 1] + 0x1_0000 * block.bytes()[4 * w + 2] + 0x100_0000
        * block.bytes()[4 * w + 3] by {
        lemma_word_value(block.0@[w]);
        assert((4 * w) / 4 == w && (4 * w) % 4 == 0);
        assert((4 * w + 1) / 4 == w && (4 * w + 1) % 4 == 1);
        assert((4 * w + 2) / 4 == w && (4 * w + 2) % 4 == 2);
        assert((4 * w + 3) / 4 == w && (4 * w + 3) % 4 == 3);
    }
}

/// A command block has four bytes for each of its words, and each word is spelled by its bytes
/// with the first one as the least significant.
pub proof fn law_command_words_are_spelled_by_bytes(block: CmdBlock)
    ensures
        block.bytes().len() == 64,
        forall|w: int|
            0 <= w < 16 ==> #[trigger] block.0@[w] == block.bytes()[4 * w] + 0x100 * block.bytes()[4
                * w + 1] + 0x1_0000 * block.bytes()[4 * w + 2] + 0x100_0000 * block.bytes()[4 * w
                + 3],
{
    assert forall|w: int| 0 <= w < 16 implies #[trigger] block.0@[w] == block.bytes()[4 * w]
        + 0x100 * block.bytes()[4 * w + 1] + 0x1_0000 * block.bytes()[4 * w + 2] + 0x100_0000
        * block.bytes()[4 * w + 3] by {
        lemma_word_value(block.0@[w]);
        assert((4 * w) / 4 == w && (4 * w) % 4 == 0);
        assert((4 * w + 1) / 4 == w && (4 * w + 1) % 4 == 1);
        assert((4 * w + 2) / 4 == w && (4 * w + 2) % 4 == 2);
        assert((4 * w + 3) / 4 == w && (4 * w + 3) % 4 == 3);
    }
}

/// A word that is turned has its bytes in the opposite order: what was the least significant
/// byte is the most significant one, and a word that is turned twice is as before.
pub proof fn law_turned_word(word: u32)
    ensures
        be_word(word) == (word % 0x100) * 0x100_0000 + ((word / 0x100) % 0x100) * 0x1_0000 + ((word
            / 0x1_0000) % 0x100) * 0x100 + word / 0x100_0000,
        be_word(be_word(word)) == word,
{
    let once = be_word(word);
    let twice = be_word(once);
    lemma_turned_word(word);
    lemma_turned_word(once);
    assert(twice == word) by (bit_vector)
        requires
            once == (word % 0x100) * 0x100_0000 + ((word / 0x100) % 0x100) * 0x1_0000 + ((word
                / 0x1_0000) % 0x100) * 0x100 + word / 0x100_0000,
            twice == (once % 0x100) * 0x100_0000 + ((once / 0x100) % 0x100) * 0x1_0000 + ((once
                / 0x1_0000) % 0x100) * 0x100 + once / 0x100_0000,
    ;
}

proof fn lemma_turned_word(word: u32)
    ensures
        be_word(word) == (word % 0x100) * 0x100_0000 + ((word / 0x100) % 0x100) * 0x1_0000 + ((word
            / 0x1_0000) % 0x100) * 0x100 + word / 0x100_0000,
{
    assert(words_bytes(seq![word]) =~= seq![
        word_byte(word, 0),
        word_byte(word, 1),
        word_byte(word, 2),
        word_byte(word, 3),
    ]);
    lemma_be_value_4(words_bytes(seq![word]));
    assert((word & 0xFF) as u8 == word % 0x100 && ((word >> 8u32) & 0xFF) as u8 == (word / 0x100)
        % 0x100 && ((word >> 16u32) & 0xFF) as u8 == (word / 0x1_0000) % 0x100 && ((word >> 24u32)
        & 0xFF) as u8 == word / 0x100_0000) by (bit_vector);
}

/// A command block is turned word by word.
pub proof fn law_turned_block(block: CmdBlock)
    ensures
        forall|i: int| 0 <= i < 16 ==> #[trigger] block.be_words().0@[i] == be_word(block.0@[i]),
{
    assert forall|i: int| 0 <= i < 16 implies #[trigger] block.be_words().0@[i] == be_word(
        block.0@[i],
    ) by {
        assert(i == 0 || i == 1 || i == 2 || i == 3 || i == 4 || i == 5 || i == 6 || i == 7 || i
            == 8 || i == 9 || i == 10 || i == 11 || i == 12 || i == 13 || i == 14 || i == 15);
    }
}

} // verus!
