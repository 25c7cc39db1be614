//! Hardware memory-protection regions: the fixed set of three built-in
//! regions plus up to five dynamically registered ones, under the
//! hardware's power-of-two size and natural-alignment rules.
//!
//! A region's size is encoded as the exponent the hardware understands
//! (`SIZE = 2^(X + 1)`), its base must be aligned to its size, and the
//! minimum enforced size is 16 bytes. The grant region is protected by the
//! nearest enclosing power of two.

use vstd::prelude::*;

use crate::process::mem_end;
use crate::process::Process;
use crate::process::ProcessModel;
use crate::process::MPU_REGION_SLOTS;
use vstd::std_specs::bits::u32_leading_zeros;
use vstd::std_specs::bits::u32_trailing_zeros;

verus! {

broadcast use vstd::std_specs::bits::axiom_u32_trailing_zeros, vstd::std_specs::bits::axiom_u32_leading_zeros;

/// Whether `x` is a power of two: nonzero with no bit in common with its
/// predecessor.
pub open spec fn power_of_two_u32(x: u32) -> bool {
    x != 0 && x & (x - 1) as u32 == 0
}

/// The smallest power of two that is at least `num`, computed by smearing
/// the high bit rightward. Faithful to the 32-bit hardware: an input of
/// zero or above `0x80000000` wraps around to zero.
pub fn closest_power_of_two(num: u32) -> (r: u32)
    ensures
        1 <= num <= 0x80000000 ==> power_of_two_u32(r) && num <= r < 2 * num,
        num == 0 ==> r == 0,
        num > 0x80000000 ==> r == 0,
{
    let n0 = num.wrapping_sub(1);
    let n1 = n0 | (n0 >> 1);
    let n2 = n1 | (n1 >> 2);
    let n3 = n2 | (n2 >> 4);
    let n4 = n3 | (n3 >> 8);
    let n5 = n4 | (n4 >> 16);
    let r = n5.wrapping_add(1);
    proof {
        if 1 <= num <= 0x80000000 {
            assert(n0 == num - 1);
            assert((1 <= num && num <= 0x80000000 && n0 == num - 1 && n1 == n0 | (n0 >> 1) && n2
                == n1 | (n1 >> 2) && n3 == n2 | (n2 >> 4) && n4 == n3 | (n3 >> 8) && n5 == n4 | (n4
                >> 16)) ==> (n5 < 0xFFFFFFFF && (n5 + 1) as u32 & n5 == 0 && num <= n5 + 1 && n5
                + 1 < 2 * num)) by (bit_vector);
        } else if num == 0 {
            assert(n0 == 0xFFFFFFFF);
            assert((n0 == 0xFFFFFFFFu32 && n1 == n0 | (n0 >> 1) && n2 == n1 | (n1 >> 2) && n3 == n2
                | (n2 >> 4) && n4 == n3 | (n3 >> 8) && n5 == n4 | (n4 >> 16)) ==> n5
                == 0xFFFFFFFF) by (bit_vector);
        } else {
            assert(n0 == num - 1 && n0 >= 0x80000000);
            assert((n0 >= 0x80000000 && n1 == n0 | (n0 >> 1) && n2 == n1 | (n1 >> 2) && n3 == n2 | (
            n2 >> 4) && n4 == n3 | (n3 >> 8) && n5 == n4 | (n4 >> 16)) ==> n5 == 0xFFFFFFFF)
                by (bit_vector);
        }
    }
    r
}

/// One hardware protection-region configuration, as handed to the MPU's
/// `configure_region` interface.
#[derive(Clone, Copy, PartialEq, Eq, Structural, Debug)]
pub struct RegionConfig {
    pub index: u32,
    pub base_address: u32,
    pub size_exponent: u32,
    pub enabled: bool,
    pub permission_bits: u32,
}

/// First slot of `regions`, scanning from `i`, that is empty (base zero) or
/// already describes `base`; the table length when there is none.
pub open spec fn region_slot_from(regions: Seq<(u32, u32)>, base: u32, i: int) -> int
    decreases regions.len() - i,
{
    if i < 0 || i >= regions.len() {
        regions.len() as int
    } else if regions[i].0 == 0 || regions[i].0 == base {
        i
    } else {
        region_slot_from(regions, base, i + 1)
    }
}

/// Whether `add_mpu_region` accepts this base and size at all: the size
/// must be a power of two of at least 16 bytes and the base naturally
/// aligned to it.
pub open spec fn region_request_valid(base: u32, size: u32) -> bool {
    size >= 16 && power_of_two_u32(size) && base % size == 0
}

/// The entry the matched slot holds afterwards: an empty slot is filled; a
/// slot with the same base grows in place when the new encoded size is
/// larger and never shrinks.
pub open spec fn region_slot_next(slot: (u32, u32), base: u32, msize: u32) -> (u32, u32) {
    if slot.0 == 0 {
        (base, msize)
    } else if slot.1 < msize {
        (base, msize)
    } else {
        slot
    }
}

impl Process {
    /// Registers the dynamic protection region `[base, base + size)`.
    /// Rejects a size that is not a power of two of at least 16 bytes and a
    /// base not aligned to the size; otherwise fills the first empty slot,
    /// or grows (never shrinks) the slot already describing `base`, and
    /// rejects only when all five slots describe other regions.
    pub fn add_mpu_region(&mut self, base: u32, size: u32) -> (r: bool)
        requires
            old(self).wf(),
        ensures
            final(self).wf(),
            ({
                let regions = old(self)@.mpu_regions;
                let slot = region_slot_from(regions, base, 0);
                let msize = (u32_trailing_zeros(size) - 1) as u32;
                if !region_request_valid(base, size) || slot == regions.len() {
                    !r && final(self)@ == old(self)@
                } else {
                    r && final(self)@ == (ProcessModel {
                        mpu_regions: regions.update(
                            slot,
                            region_slot_next(regions[slot], base, msize),
                        ),
                        ..old(self)@
                    })
                }
            }),
    {
        if !(size >= 16 && (size & (size - 1)) == 0 && base % size == 0) {
            proof {
                assert(self@ =~= old(self)@);
            }
            return false;
        }
        proof {
            let s = size;
            assert(s >> 0u32 == s) by (bit_vector);
            assert((s >= 16 && s & (s - 1) as u32 == 0) ==> s & 1u32 == 0) by (bit_vector);
            assert(u32_trailing_zeros(size) != 0);
        }
        let msize: u32 = size.trailing_zeros() - 1;
        let mut i: usize = 0;
        while i < MPU_REGION_SLOTS
            invariant
                old(self).wf(),
                i <= MPU_REGION_SLOTS,
                *self == *old(self),
                region_request_valid(base, size),
                u32_trailing_zeros(size) >= 1,
                msize == (u32_trailing_zeros(size) - 1) as u32,
                region_slot_from(self@.mpu_regions, base, 0) == region_slot_from(
                    self@.mpu_regions,
                    base,
                    i as int,
                ),
            decreases MPU_REGION_SLOTS - i,
        {
            let slot = self.mpu_regions[i];
            if slot.0 == 0 {
                self.mpu_regions.set(i, (base, msize));
                proof {
                    assert(self@ =~= (ProcessModel {
                        mpu_regions: old(self)@.mpu_regions.update(
                            i as int,
                            region_slot_next(old(self)@.mpu_regions[i as int], base, msize),
                        ),
                        ..old(self)@
                    }));
                }
                return true;
            } else if slot.0 == base {
                if slot.1 < msize {
                    self.mpu_regions.set(i, (base, msize));
                }
                proof {
                    assert(self@ =~= (ProcessModel {
                        mpu_regions: old(self)@.mpu_regions.update(
                            i as int,
                            region_slot_next(old(self)@.mpu_regions[i as int], base, msize),
                        ),
                        ..old(self)@
                    }));
                }
                return true;
            }
            i += 1;
        }
        proof {
            assert(self@ =~= old(self)@);
        }
        false
    }

    /// The eight protection-region configurations to program for this
    /// process: region 0 covers the whole data segment read/write/execute,
    /// region 1 the text segment read/execute, region 2 denies all access
    /// to the current grant region rounded up to the nearest enclosing
    /// power of two, and regions 3 to 7 carry the dynamically registered
    /// regions read/write.
    pub fn setup_mpu(&self) -> (r: Vec<RegionConfig>)
        requires
            self.wf(),
            self@.text.len() >= 2,
            2 <= mem_end(self@) - self@.kernel_memory_break <= 0x80000000,
        ensures
            r@.len() == 3 + MPU_REGION_SLOTS,
            r@[0] == (RegionConfig {
                index: 0,
                base_address: self@.mem_base,
                size_exponent: (32 - u32_leading_zeros(self@.mem.len() as u32)) as u32,
                enabled: true,
                permission_bits: 0b011,
            }),
            r@[1] == (RegionConfig {
                index: 1,
                base_address: self@.text_base,
                size_exponent: (32 - u32_leading_zeros(self@.text.len() as u32) - 2) as u32,
                enabled: true,
                permission_bits: 0b111,
            }),
            ({
                let grant_size = (mem_end(self@) - self@.kernel_memory_break) as u32;
                exists|gs: u32|
                    #![auto]
                    power_of_two_u32(gs) && grant_size <= gs < 2 * grant_size && r@[2]
                        == (RegionConfig {
                        index: 2,
                        base_address: vstd::wrapping::u32_specs::wrapping_sub(
                            (mem_end(self@)) as u32,
                            gs,
                        ),
                        size_exponent: (u32_trailing_zeros(gs) - 1) as u32,
                        enabled: false,
                        permission_bits: 0b001,
                    })
            }),
            forall|i: int|
                0 <= i < MPU_REGION_SLOTS ==> r@[3 + i] == (RegionConfig {
                    index: (3 + i) as u32,
                    base_address: self@.mpu_regions[i].0,
                    size_exponent: self@.mpu_regions[i].1,
                    enabled: true,
                    permission_bits: 0b011,
                }),
    {
        let mut r: Vec<RegionConfig> = Vec::new();

        // Data segment: read, write and execute.
        let data_len: u32 = 32 - (self.memory.len() as u32).leading_zeros();
        r.push(
            RegionConfig {
                index: 0,
                base_address: self.mem_start(),
                size_exponent: data_len,
                enabled: true,
                permission_bits: 0b011,
            },
        );

        // Text segment: read and execute, never write.
        let text_len_bits: u32 = 32 - (self.text.len() as u32).leading_zeros();
        proof {
            let t = self@.text.len() as u32;
            if u32_leading_zeros(t) == 31 {
                assert(t >> 1u32 == 0);
                assert((t >> 1u32 == 0) ==> t < 2) by (bit_vector);
            }
            assert(u32_leading_zeros(t) <= 30);
        }
        let text_len: u32 = text_len_bits - 2;
        r.push(
            RegionConfig {
                index: 1,
                base_address: self.text_base,
                size_exponent: text_len,
                enabled: true,
                permission_bits: 0b111,
            },
        );

        // Grant region: rounded up to a power of two, all access denied.
        let end: u32 = self.mem_end();
        let grant_raw: u32 = end - self.kernel_memory_break;
        let grant_size: u32 = closest_power_of_two(grant_raw);
        let grant_base: u32 = end.wrapping_sub(grant_size);
        proof {
            let gs = grant_size;
            assert(gs >> 0u32 == gs) by (bit_vector);
            assert((gs & (gs - 1) as u32 == 0 && gs >= 2) ==> gs & 1u32 == 0) by (bit_vector);
            assert(u32_trailing_zeros(grant_size) != 0);
        }
        let mgrant_size: u32 = grant_size.trailing_zeros() - 1;
        r.push(
            RegionConfig {
                index: 2,
                base_address: grant_base,
                size_exponent: mgrant_size,
                enabled: false,
                permission_bits: 0b001,
            },
        );

        // Dynamically registered regions: read and write.
        let ghost first3 = r@;
        let mut i: usize = 0;
        while i < MPU_REGION_SLOTS
            invariant
                self.wf(),
                i <= MPU_REGION_SLOTS,
                r@.len() == 3 + i,
                first3.len() == 3,
                r@.subrange(0, 3) == first3,
                forall|k: int|
                    0 <= k < i ==> r@[3 + k] == (RegionConfig {
                        index: (3 + k) as u32,
                        base_address: self@.mpu_regions[k].0,
                        size_exponent: self@.mpu_regions[k].1,
                        enabled: true,
                        permission_bits: 0b011,
                    }),
            decreases MPU_REGION_SLOTS - i,
        {
            let region = self.mpu_regions[i];
            r.push(
                RegionConfig {
                    index: (i as u32) + 3,
                    base_address: region.0,
                    size_exponent: region.1,
                    enabled: true,
                    permission_bits: 0b011,
                },
            );
            proof {
                assert(r@.subrange(0, 3) =~= first3);
            }
            i += 1;
        }
        proof {
            assert(r@[0] == first3[0] && r@[1] == first3[1] && r@[2] == first3[2]);
        }
        r
    }
}

} // verus!
