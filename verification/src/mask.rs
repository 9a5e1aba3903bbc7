use vstd::prelude::*;

verus! {

/// The number of bits in the affinity word. Affinity masks are computed in a
/// 64-bit word, one bit per logical CPU.
pub const AFFINITY_WORD_BITS: u32 = 64;

/// The affinity mask for `cpu_count` CPUs: `2^cpu_count - 1`, the word with
/// exactly the low `cpu_count` bits set.
pub open spec fn affinity_mask_spec(cpu_count: u32) -> u64 {
    if cpu_count >= 64 {
        0xffff_ffff_ffff_ffffu64
    } else {
        ((1u64 << cpu_count) - 1) as u64
    }
}

/// Computes `2^cpu_count - 1`, the mask that pins a process to the low
/// `cpu_count` logical CPUs.
pub fn affinity_mask(cpu_count: u32) -> (mask: u64)
    requires
        1 <= cpu_count <= AFFINITY_WORD_BITS,
    ensures
        mask == affinity_mask_spec(cpu_count),
{
    if cpu_count == 64 {
        0xffff_ffff_ffff_ffffu64
    } else {
        assert(1u64 << cpu_count >= 1) by (bit_vector)
            requires cpu_count < 64u32;
        let shifted: u64 = 1u64 << cpu_count;
        shifted - 1
    }
}

/// Law: the affinity mask for `cpu_count` CPUs has exactly the low
/// `cpu_count` bits set and no higher bit: for every `bit` below the word
/// size, bit `bit` of the mask is set if and only if `bit < cpu_count`.
pub proof fn lemma_affinity_mask_bits(cpu_count: u32, bit: u32)
    requires
        1 <= cpu_count <= AFFINITY_WORD_BITS,
        bit < AFFINITY_WORD_BITS,
    ensures
        (affinity_mask_spec(cpu_count) >> bit) & 1u64 == (if bit < cpu_count {
            1u64
        } else {
            0u64
        }),
{
    if cpu_count == 64 {
        assert((0xffff_ffff_ffff_ffffu64 >> bit) & 1u64 == 1u64) by (bit_vector)
            requires bit < 64u32;
    } else {
        assert(((((1u64 << cpu_count) - 1) as u64) >> bit) & 1u64 == (if bit < cpu_count {
            1u64
        } else {
            0u64
        })) by (bit_vector)
            requires 1u32 <= cpu_count < 64u32 && bit < 64u32;
    }
}

} // verus!
