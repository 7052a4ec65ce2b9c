//! Compile-time-checked translation-granule and address-space size
//! carriers. A size is usable only when it is a power of two (and, for an
//! address space, passes the architecture's sanity check); the check is a
//! static precondition, so an invalid configuration never verifies.

use vstd::prelude::*;
use vstd::arithmetic::power2::{
    pow2, is_pow2, lemma_pow2_unfold, lemma_pow2_strictly_increases, lemma_pow2_pos, lemma2_to64,
};
use vstd::bits::lemma_usize_shl_is_mul;
use vstd::layout::unsigned_int_max_values;

verus! {

/// A power of two is positive.
proof fn lemma_is_pow2_pos(n: int)
    requires
        is_pow2(n),
    ensures
        n >= 1,
{
    reveal(is_pow2);
}

/// The exact base-two logarithm of a power of two: the unique `r` with
/// `pow2(r) == n`, which is also a legal shift amount for `usize`.
pub fn log2_of_pow2(n: usize) -> (r: usize)
    requires
        is_pow2(n as int),
    ensures
        pow2(r as nat) == n,
        (1usize << r) == n,
        r < usize::BITS,
{
    let mut v: usize = n;
    let mut s: usize = 0;
    proof {
        lemma_is_pow2_pos(n as int);
        lemma2_to64();
    }
    while v > 1
        invariant
            is_pow2(v as int),
            v >= 1,
            n as nat == v as nat * pow2(s as nat),
            pow2(s as nat) <= n as nat,
            s < usize::BITS,
        decreases v,
    {
        proof {
            reveal(is_pow2);
            assert(v as int % 2 == 0 && is_pow2(v as int / 2));
            lemma_pow2_unfold((s + 1) as nat);
            lemma_pow2_pos((s + 1) as nat);
            assert((v as nat / 2) * pow2((s + 1) as nat) == v as nat * pow2(s as nat))
                by (nonlinear_arith)
                requires
                    v as int % 2 == 0,
                    v >= 2,
                    pow2((s + 1) as nat) == 2 * pow2(s as nat),
            ;
            // The next shift amount still fits the word: otherwise pow2 of it
            // would already exceed usize::MAX.
            assert(pow2((s + 1) as nat) <= v as nat / 2 * pow2((s + 1) as nat))
                by (nonlinear_arith)
                requires
                    v >= 2,
                    v as int % 2 == 0,
                    pow2((s + 1) as nat) > 0,
            ;
            unsigned_int_max_values();
            if s + 1 >= usize::BITS {
                if s + 1 > usize::BITS {
                    lemma_pow2_strictly_increases(usize::BITS as nat, (s + 1) as nat);
                }
                assert(pow2((s + 1) as nat) >= pow2(usize::BITS as nat));
                assert(false);
            }
        }
        v = v / 2;
        s = s + 1;
    }
    proof {
        assert(v == 1);
        assert(pow2(s as nat) == n);
        lemma_usize_shl_is_mul(1, s);
    }
    s
}

/// Zero-sized carrier of the translation granule's page size.
pub struct TranslationGranule<const GRANULE_SIZE: usize>;

impl<const GRANULE_SIZE: usize> TranslationGranule<GRANULE_SIZE> {
    /// A granule size is valid only when it is a power of two. Every use
    /// of the carrier demands this statically: a non-power-of-two granule
    /// never verifies, the analogue of failing the build.
    pub open spec fn wf() -> bool {
        is_pow2(GRANULE_SIZE as int)
    }

    /// The granule size, available only for valid configurations.
    pub fn size_checked() -> (r: usize)
        requires
            Self::wf(),
        ensures
            r == GRANULE_SIZE,
    {
        GRANULE_SIZE
    }

    /// The mask selecting the offset bits inside one granule:
    /// always `GRANULE_SIZE - 1`.
    pub fn mask() -> (r: usize)
        requires
            Self::wf(),
        ensures
            r == GRANULE_SIZE - 1,
    {
        proof {
            lemma_is_pow2_pos(GRANULE_SIZE as int);
        }
        GRANULE_SIZE - 1
    }

    /// The granule's page-number shift: one shifted left by it gives the
    /// granule size back.
    pub fn shift() -> (r: usize)
        requires
            Self::wf(),
        ensures
            pow2(r as nat) == GRANULE_SIZE,
            (1usize << r) == GRANULE_SIZE,
            r < usize::BITS,
    {
        log2_of_pow2(GRANULE_SIZE)
    }
}

/// Zero-sized carrier of a virtual address space's size.
pub struct AddressSpace<const AS_SIZE: usize>;

impl<const AS_SIZE: usize> AddressSpace<AS_SIZE> {
    /// The architecture's own constraint: the address space must fit the
    /// hardware's 48-bit virtual address width.
    pub open spec fn arch_address_space_size_sanity_checks() -> bool {
        AS_SIZE as nat <= pow2(48)
    }

    /// An address-space size is valid only when it is a power of two and
    /// passes the architecture sanity check; both are demanded statically.
    pub open spec fn wf() -> bool {
        is_pow2(AS_SIZE as int) && Self::arch_address_space_size_sanity_checks()
    }

    /// The address-space size, available only for valid configurations.
    pub fn size_checked() -> (r: usize)
        requires
            Self::wf(),
        ensures
            r == AS_SIZE,
    {
        AS_SIZE
    }

    /// The address space's size shift: one shifted left by it gives the
    /// size back.
    pub fn size_shift() -> (r: usize)
        requires
            Self::wf(),
        ensures
            pow2(r as nat) == AS_SIZE,
            (1usize << r) == AS_SIZE,
            r < usize::BITS,
    {
        log2_of_pow2(AS_SIZE)
    }
}

/// The kernel's active granule configuration is valid: its size is a
/// power of two.
pub proof fn lemma_kernel_granule_wf()
    ensures
        TranslationGranule::<4096>::wf(),
        is_pow2(crate::address::GRANULE_SIZE as int),
{
    reveal_with_fuel(is_pow2, 14);
    assert(is_pow2(4096));
}

} // verus!
