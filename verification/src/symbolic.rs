//! Symbolic traits of a font: a bit set in a `u32`, with the stylistic class
//! of the font kept in its top four bits.
#![allow(non_upper_case_globals)]

use vstd::prelude::*;

verus! {

/// A set of symbolic font traits, one bit per trait.
pub type CTFontSymbolicTraits = u32;

/// Position of the stylistic class inside a symbolic-traits word.
pub const kCTFontClassMaskShift: u32 = 28;

pub const kCTFontItalicTrait: CTFontSymbolicTraits = 1 << 0;
pub const kCTFontBoldTrait: CTFontSymbolicTraits = 1 << 1;
pub const kCTFontExpandedTrait: CTFontSymbolicTraits = 1 << 5;
pub const kCTFontCondensedTrait: CTFontSymbolicTraits = 1 << 6;
pub const kCTFontMonoSpaceTrait: CTFontSymbolicTraits = 1 << 10;
pub const kCTFontVerticalTrait: CTFontSymbolicTraits = 1 << 11;
pub const kCTFontUIOptimizedTrait: CTFontSymbolicTraits = 1 << 12;
pub const kCTFontClassMaskTrait: CTFontSymbolicTraits = 15 << kCTFontClassMaskShift;

/// Bit `k` of `x` is set.
pub open spec fn bit_set(x: u32, k: u32) -> bool {
    (x >> k) & 1 == 1
}

/// The trait set `traits` holds the trait (or one of the traits) in `mask`.
pub open spec fn has_trait(traits: u32, mask: u32) -> bool {
    traits & mask != 0
}

/// Queries of a symbolic-traits word, one per trait.
pub trait SymbolicTraitAccessors {
    fn is_italic(&self) -> bool;

    fn is_bold(&self) -> bool;

    fn is_expanded(&self) -> bool;

    fn is_condensed(&self) -> bool;

    fn is_monospace(&self) -> bool;
}

impl SymbolicTraitAccessors for CTFontSymbolicTraits {
    fn is_italic(&self) -> (r: bool)
        ensures
            r == has_trait(*self, kCTFontItalicTrait),
            r == bit_set(*self, 0),
    {
        proof {
            lemma_single_bit(*self, 0);
        }
        (*self & kCTFontItalicTrait) != 0
    }

    fn is_bold(&self) -> (r: bool)
        ensures
            r == has_trait(*self, kCTFontBoldTrait),
            r == bit_set(*self, 1),
    {
        proof {
            lemma_single_bit(*self, 1);
        }
        (*self & kCTFontBoldTrait) != 0
    }

    fn is_expanded(&self) -> (r: bool)
        ensures
            r == has_trait(*self, kCTFontExpandedTrait),
            r == bit_set(*self, 5),
    {
        proof {
            lemma_single_bit(*self, 5);
        }
        (*self & kCTFontExpandedTrait) != 0
    }

    fn is_condensed(&self) -> (r: bool)
        ensures
            r == has_trait(*self, kCTFontCondensedTrait),
            r == bit_set(*self, 6),
    {
        proof {
            lemma_single_bit(*self, 6);
        }
        (*self & kCTFontCondensedTrait) != 0
    }

    fn is_monospace(&self) -> (r: bool)
        ensures
            r == has_trait(*self, kCTFontMonoSpaceTrait),
            r == bit_set(*self, 10),
    {
        proof {
            lemma_single_bit(*self, 10);
        }
        (*self & kCTFontMonoSpaceTrait) != 0
    }
}

proof fn lemma_single_bit(t: u32, k: u32)
    requires
        k < 32,
    ensures
        has_trait(t, 1u32 << k) == bit_set(t, k),
{
    assert((t & (1u32 << k) != 0) == ((t >> k) & 1 == 1)) by (bit_vector)
        requires
            k < 32,
    ;
}

/// A trait query on the union of two trait sets holds exactly when it holds
/// on one of them.
pub proof fn lemma_has_trait_union(a: u32, b: u32, mask: u32)
    ensures
        has_trait(a | b, mask) == (has_trait(a, mask) || has_trait(b, mask)),
{
    assert(((a | b) & mask != 0) == ((a & mask != 0) || (b & mask != 0))) by (bit_vector);
}

/// A trait query for traits outside the class bits does not depend on the
/// stylistic class stored in those bits: replacing the class of `traits` by
/// that of `class` leaves it unchanged.
pub proof fn lemma_has_trait_ignores_class(traits: u32, class: u32, mask: u32)
    requires
        mask & kCTFontClassMaskTrait == 0,
    ensures
        has_trait(traits, mask) == has_trait(
            (traits & !kCTFontClassMaskTrait) | (class & kCTFontClassMaskTrait),
            mask,
        ),
{
    let m = kCTFontClassMaskTrait;
    assert(m == 0xF000_0000u32) by (bit_vector)
        requires
            m == 15u32 << 28u32,
    ;
    assert((traits & mask != 0) == (((traits & !m) | (class & m)) & mask != 0)) by (bit_vector)
        requires
            m == 0xF000_0000u32,
            mask & m == 0,
    ;
}

} // verus!
