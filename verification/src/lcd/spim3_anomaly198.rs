//! The RAM blocks a SPIM3 transmit buffer occupies, for the nRF52840 Anomaly 198 workaround.
//!
//! The anomaly corrupts the bytes SPIM3 puts on the wire when the CPU accesses the RAM AHB slave
//! that holds the transmit buffer in the same cycle as `EasyDMA` fetches from it. The vendor
//! workaround names, in an undocumented register, the RAM AHB slaves the buffer occupies for the
//! length of the transfer; this module computes that mask the way the vendor driver
//! (`anomaly_198_enable` of `nrfx_spim.c`) computes it. Writing the register is the firmware's.
use vstd::prelude::*;

verus! {

/// Size (bytes) of the RAM block one bit of the mask stands for.
pub const RAM_BLOCK_SIZE: usize = 0x2000;

/// Shift matching [`RAM_BLOCK_SIZE`], which turns an address into a bit index.
pub const RAM_BLOCK_SHIFT: usize = 13;

/// First address the vendor computation folds into a single block flag.
pub const RAM_TOP_BLOCK: usize = 0x2001_0000;

/// Address the vendor computation stops walking blocks at.
pub const RAM_BLOCK_LIMIT: usize = 0x2001_2000;

/// Lowest RAM address.
pub const RAM_LOWER: usize = 0x2000_0000;

/// One past the highest RAM address.
pub const RAM_UPPER: usize = 0x3000_0000;

/// Mask naming every RAM AHB slave.
pub const ALL_RAM_BLOCKS: u32 = 0x1FF;

/// The mask with the bits `first` up to `last` set, both included.
pub open spec fn blocks_mask(first: int, last: int) -> u32
    decreases last - first + 1,
{
    if last < first {
        0
    } else {
        blocks_mask(first, last - 1) | (1u32 << (last as u32))
    }
}

/// The smaller of two integers.
pub open spec fn min_int(a: int, b: int) -> int {
    if a <= b {
        a
    } else {
        b
    }
}

/// Mask of the RAM AHB slaves a buffer of `len` bytes at address `start` occupies.
///
/// An empty buffer occupies none. A buffer that does not lie within RAM, or whose end cannot be
/// computed, names every slave, because what `EasyDMA` reads is then a copy whose address is not
/// known here. A buffer starting in the top block names that block alone. Otherwise the blocks
/// from the one holding `start` up to the one holding the last byte are named, the walk stopping
/// at [`RAM_BLOCK_LIMIT`].
pub open spec fn spec_occupied_ram_blocks(start: int, len: int) -> u32 {
    if len == 0 {
        0
    } else if start + len > usize::MAX {
        ALL_RAM_BLOCKS
    } else if start < RAM_LOWER || start + len >= RAM_UPPER {
        ALL_RAM_BLOCKS
    } else {
        let block = start - start % (RAM_BLOCK_SIZE as int);
        if block >= RAM_TOP_BLOCK {
            1u32 << 8u32
        } else {
            blocks_mask(
                (block - RAM_LOWER) / (RAM_BLOCK_SIZE as int),
                (min_int(start + len, RAM_BLOCK_LIMIT as int) - 1 - RAM_LOWER) / (
                RAM_BLOCK_SIZE as int),
            )
        }
    }
}

proof fn lemma_align_down(start: usize)
    ensures
        start & !((RAM_BLOCK_SIZE - 1) as usize) == start - start % 0x2000,
{
    assert(start & !0x1FFFusize == start - start % 0x2000) by (bit_vector);
}

proof fn lemma_block_index(block: usize, k: usize)
    requires
        k < 8,
        block == 0x2000_0000 + k * 0x2000,
    ensures
        (block >> 13usize) & 0xFFFF == k,
{
    assert((block >> 13usize) & 0xFFFF == k) by (bit_vector)
        requires
            k < 8,
            block == 0x2000_0000 + k * 0x2000,
    ;
}

proof fn lemma_next_flag(j: u32)
    requires
        j < 31,
    ensures
        (1u32 << j) << 1u32 == 1u32 << (j + 1) as u32,
{
    assert((1u32 << j) << 1u32 == 1u32 << (j + 1) as u32) by (bit_vector)
        requires
            j < 31,
    ;
}

/// Mask of the RAM AHB slaves the `len` bytes at address `start` occupy, computed the way the
/// vendor driver computes it.
pub fn occupied_ram_blocks(start: usize, len: usize) -> (r: u32)
    ensures
        r == spec_occupied_ram_blocks(start as int, len as int),
{
    if len == 0 {
        return 0;
    }
    let end = match start.checked_add(len) {
        Some(end) => end,
        None => return ALL_RAM_BLOCKS,
    };
    if start < RAM_LOWER || end >= RAM_UPPER {
        return ALL_RAM_BLOCKS;
    }
    let mut block = start & !(RAM_BLOCK_SIZE - 1);
    proof {
        lemma_align_down(start);
    }
    if block >= RAM_TOP_BLOCK {
        assert((0x2001_0000usize >> 13usize) & 0xFFFF == 8) by (bit_vector);
        let shift: u32 = ((RAM_TOP_BLOCK >> RAM_BLOCK_SHIFT) & 0xFFFF) as u32;
        return 1u32 << shift;
    }
    let ghost first: int = (block - RAM_LOWER) / (RAM_BLOCK_SIZE as int);
    let ghost last: int = (min_int(end as int, RAM_BLOCK_LIMIT as int) - 1 - RAM_LOWER) / (
    RAM_BLOCK_SIZE as int);
    assert(block == RAM_LOWER + first * 0x2000);
    proof {
        lemma_block_index(block, first as usize);
    }
    let mut blocks: u32 = 0;
    let mut flag: u32 = 1u32 << (((block >> RAM_BLOCK_SHIFT) & 0xFFFF) as u32);
    let ghost mut j: int = first;
    loop
        invariant
            end == start + len,
            RAM_LOWER <= start,
            end < RAM_UPPER,
            len > 0,
            first == (start - start % 0x2000 - RAM_LOWER) / 0x2000,
            start - start % 0x2000 < RAM_TOP_BLOCK,
            0 <= first <= j <= 8,
            first < 8,
            last == (min_int(end as int, RAM_BLOCK_LIMIT as int) - 1 - RAM_LOWER) / 0x2000,
            block == RAM_LOWER + j * 0x2000,
            block < end,
            block < RAM_BLOCK_LIMIT,
            flag == 1u32 << (j as u32),
            blocks == blocks_mask(first, j - 1),
        decreases RAM_BLOCK_LIMIT - block,
    {
        blocks = blocks | flag;
        assert(blocks == blocks_mask(first, j));
        proof {
            lemma_next_flag(j as u32);
        }
        flag = flag << 1u32;
        block = block + RAM_BLOCK_SIZE;
        proof {
            j = j + 1;
        }
        if block >= end || block >= RAM_BLOCK_LIMIT {
            proof {
                let m = min_int(end as int, RAM_BLOCK_LIMIT as int) - 1 - RAM_LOWER;
                assert((j - 1) * 0x2000 <= m < j * 0x2000);
                assert(m / 0x2000 == j - 1) by (nonlinear_arith)
                    requires
                        (j - 1) * 0x2000 <= m < j * 0x2000,
                ;
                assert(last == j - 1);
            }
            return blocks;
        }
    }
}

/// Bit `i` of the mask of blocks `first` up to `last` is set exactly for the blocks in between.
pub proof fn lemma_blocks_mask_bits(first: int, last: int, i: u32)
    requires
        0 <= first,
        last < 32,
        i < 32,
    ensures
        (blocks_mask(first, last) >> i) & 1 == 1 <==> first <= i <= last,
    decreases last - first + 1,
{
    if last >= first {
        lemma_blocks_mask_bits(first, last - 1, i);
        let prev = blocks_mask(first, last - 1);
        let l = last as u32;
        assert(((prev | (1u32 << l)) >> i) & 1 == 1 <==> (i == l || (prev >> i) & 1 == 1))
            by (bit_vector)
            requires
                l < 32,
                i < 32,
        ;
    } else {
        assert((0u32 >> i) & 1 == 0) by (bit_vector);
    }
}

/// Every mask the computation yields names RAM AHB slaves only: no bit past the ninth is set.
pub proof fn lemma_occupied_within_all_blocks(start: int, len: int)
    requires
        0 <= start,
        0 <= len,
    ensures
        spec_occupied_ram_blocks(start, len) & !ALL_RAM_BLOCKS == 0,
{
    let r = spec_occupied_ram_blocks(start, len);
    if len == 0 {
        assert(0u32 & !0x1FFu32 == 0) by (bit_vector);
    } else if start + len > usize::MAX || start < RAM_LOWER || start + len >= RAM_UPPER {
        assert(0x1FFu32 & !0x1FFu32 == 0) by (bit_vector);
    } else {
        let block = start - start % 0x2000;
        if block >= RAM_TOP_BLOCK {
            assert((1u32 << 8u32) & !0x1FFu32 == 0) by (bit_vector);
        } else {
            let first = (block - RAM_LOWER) / 0x2000;
            let last = (min_int(start + len, RAM_BLOCK_LIMIT as int) - 1 - RAM_LOWER) / 0x2000;
            assert(last <= 8);
            assert forall|i: u32| i < 32 && (r >> i) & 1 == 1 implies i < 9 by {
                lemma_blocks_mask_bits(first, last, i);
            }
            lemma_mask_below_nine(r);
        }
    }
}

proof fn lemma_mask_below_nine(r: u32)
    requires
        forall|i: u32| i < 32 ==> ((r >> i) & 1 == 1 ==> i < 9),
    ensures
        r & !ALL_RAM_BLOCKS == 0,
{
    assert(r >> 9u32 == 0) by {
        assert forall|i: u32| 9 <= i < 32 implies (r >> i) & 1 != 1 by {}
        lemma_high_bits_clear(r);
    }
    assert(r >> 9u32 == 0 ==> r & !0x1FFu32 == 0) by (bit_vector);
}

proof fn lemma_high_bits_clear(r: u32)
    requires
        forall|i: u32| 9 <= i < 32 ==> (r >> i) & 1 != 1,
    ensures
        r >> 9u32 == 0,
{
    let b9 = (r >> 9u32) & 1;
    let b10 = (r >> 10u32) & 1;
    let b11 = (r >> 11u32) & 1;
    let b12 = (r >> 12u32) & 1;
    let b13 = (r >> 13u32) & 1;
    let b14 = (r >> 14u32) & 1;
    let b15 = (r >> 15u32) & 1;
    let b16 = (r >> 16u32) & 1;
    let b17 = (r >> 17u32) & 1;
    let b18 = (r >> 18u32) & 1;
    let b19 = (r >> 19u32) & 1;
    let b20 = (r >> 20u32) & 1;
    let b21 = (r >> 21u32) & 1;
    let b22 = (r >> 22u32) & 1;
    let b23 = (r >> 23u32) & 1;
    let b24 = (r >> 24u32) & 1;
    let b25 = (r >> 25u32) & 1;
    let b26 = (r >> 26u32) & 1;
    let b27 = (r >> 27u32) & 1;
    let b28 = (r >> 28u32) & 1;
    let b29 = (r >> 29u32) & 1;
    let b30 = (r >> 30u32) & 1;
    let b31 = (r >> 31u32) & 1;
    assert(b9 != 1 && b10 != 1 && b11 != 1 && b12 != 1 && b13 != 1 && b14 != 1 && b15 != 1 && b16
        != 1 && b17 != 1 && b18 != 1 && b19 != 1 && b20 != 1 && b21 != 1 && b22 != 1 && b23 != 1
        && b24 != 1 && b25 != 1 && b26 != 1 && b27 != 1 && b28 != 1 && b29 != 1 && b30 != 1 && b31
        != 1);
    assert(r >> 9u32 == 0) by (bit_vector)
        requires
            (r >> 9u32) & 1 != 1,
            (r >> 10u32) & 1 != 1,
            (r >> 11u32) & 1 != 1,
            (r >> 12u32) & 1 != 1,
            (r >> 13u32) & 1 != 1,
            (r >> 14u32) & 1 != 1,
            (r >> 15u32) & 1 != 1,
            (r >> 16u32) & 1 != 1,
            (r >> 17u32) & 1 != 1,
            (r >> 18u32) & 1 != 1,
            (r >> 19u32) & 1 != 1,
            (r >> 20u32) & 1 != 1,
            (r >> 21u32) & 1 != 1,
            (r >> 22u32) & 1 != 1,
            (r >> 23u32) & 1 != 1,
            (r >> 24u32) & 1 != 1,
            (r >> 25u32) & 1 != 1,
            (r >> 26u32) & 1 != 1,
            (r >> 27u32) & 1 != 1,
            (r >> 28u32) & 1 != 1,
            (r >> 29u32) & 1 != 1,
            (r >> 30u32) & 1 != 1,
            (r >> 31u32) & 1 != 1,
    ;
}

} // verus!
