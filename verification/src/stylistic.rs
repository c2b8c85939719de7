//! Stylistic class of a font: a four-bit class code stored in the top bits
//! of a symbolic-traits word.
#![allow(non_upper_case_globals)]

use vstd::prelude::*;
use crate::symbolic::kCTFontClassMaskShift;

verus! {

/// A stylistic class code, shifted into the top four bits of a `u32`.
pub type CTFontStylisticClass = u32;

pub const kCTFontUnknownClass: CTFontStylisticClass = 0 << kCTFontClassMaskShift;
pub const kCTFontOldStyleSerifsClass: CTFontStylisticClass = 1 << kCTFontClassMaskShift;
pub const kCTFontTransitionalSerifsClass: CTFontStylisticClass = 2 << kCTFontClassMaskShift;
pub const kCTFontModernSerifsClass: CTFontStylisticClass = 3 << kCTFontClassMaskShift;
pub const kCTFontClarendonSerifsClass: CTFontStylisticClass = 4 << kCTFontClassMaskShift;
pub const kCTFontSlabSerifsClass: CTFontStylisticClass = 5 << kCTFontClassMaskShift;
pub const kCTFontFreeformSerifsClass: CTFontStylisticClass = 7 << kCTFontClassMaskShift;
pub const kCTFontSansSerifClass: CTFontStylisticClass = 8 << kCTFontClassMaskShift;
pub const kCTFontOrnamentalsClass: CTFontStylisticClass = 9 << kCTFontClassMaskShift;
pub const kCTFontScriptsClass: CTFontStylisticClass = 10 << kCTFontClassMaskShift;
pub const kCTFontSymbolicClass: CTFontStylisticClass = 12 << kCTFontClassMaskShift;

/// The four-bit class code held in the top bits of `c`.
pub open spec fn class_code(c: u32) -> u32 {
    c >> kCTFontClassMaskShift
}

/// The bits of the class codes of all serif classes, in place.
pub open spec fn any_serif_class() -> u32 {
    (1u32 << 28u32) | (2u32 << 28u32) | (3u32 << 28u32) | (4u32 << 28u32) | (5u32 << 28u32) | (7u32
        << 28u32)
}

/// Queries of a stylistic class; each tests the class code against the
/// bits of the code that names the class.
pub trait StylisticClassAccessors {
    fn is_serif(&self) -> bool;

    fn is_sans_serif(&self) -> bool;

    fn is_script(&self) -> bool;

    fn is_fantasy(&self) -> bool;

    fn is_symbols(&self) -> bool;
}

impl StylisticClassAccessors for CTFontStylisticClass {
    fn is_serif(&self) -> (r: bool)
        ensures
            r == (*self & any_serif_class() != 0),
            r == (class_code(*self) & 7 != 0),
    {
        let any_serif_class = kCTFontOldStyleSerifsClass | kCTFontTransitionalSerifsClass
            | kCTFontModernSerifsClass | kCTFontClarendonSerifsClass | kCTFontSlabSerifsClass
            | kCTFontFreeformSerifsClass;
        proof {
            lemma_any_serif_class();
            lemma_class_field(*self, 7);
        }
        return (*self & any_serif_class) != 0;
    }

    fn is_sans_serif(&self) -> (r: bool)
        ensures
            r == (*self & kCTFontSansSerifClass != 0),
            r == (class_code(*self) & 8 != 0),
    {
        proof {
            lemma_class_field(*self, 8);
        }
        return (*self & kCTFontSansSerifClass) != 0;
    }

    fn is_script(&self) -> (r: bool)
        ensures
            r == (*self & kCTFontScriptsClass != 0),
            r == (class_code(*self) & 10 != 0),
    {
        proof {
            lemma_class_field(*self, 10);
        }
        return (*self & kCTFontScriptsClass) != 0;
    }

    fn is_fantasy(&self) -> (r: bool)
        ensures
            r == (*self & kCTFontOrnamentalsClass != 0),
            r == (class_code(*self) & 9 != 0),
    {
        proof {
            lemma_class_field(*self, 9);
        }
        return (*self & kCTFontOrnamentalsClass) != 0;
    }

    fn is_symbols(&self) -> (r: bool)
        ensures
            r == (*self & kCTFontSymbolicClass != 0),
            r == (class_code(*self) & 12 != 0),
    {
        proof {
            lemma_class_field(*self, 12);
        }
        return (*self & kCTFontSymbolicClass) != 0;
    }
}

proof fn lemma_any_serif_class()
    ensures
        any_serif_class() == (7u32 << 28u32),
{
    assert(((1u32 << 28u32) | (2u32 << 28u32) | (3u32 << 28u32) | (4u32 << 28u32) | (5u32
        << 28u32) | (7u32 << 28u32)) == (7u32 << 28u32)) by (bit_vector);
}

proof fn lemma_class_field(c: u32, k: u32)
    requires
        k < 16,
    ensures
        (c & (k << 28u32) != 0) == (class_code(c) & k != 0),
{
    assert((c & (k << 28u32) != 0) == ((c >> 28u32) & k != 0)) by (bit_vector)
        requires
            k < 16,
    ;
}

/// The stylistic class queries read the class code alone: two words with the
/// same class code answer every query alike, whatever their trait bits.
pub proof fn lemma_class_queries_read_class_code(a: u32, b: u32)
    requires
        class_code(a) == class_code(b),
    ensures
        (a & any_serif_class() != 0) == (b & any_serif_class() != 0),
        (a & kCTFontSansSerifClass != 0) == (b & kCTFontSansSerifClass != 0),
        (a & kCTFontScriptsClass != 0) == (b & kCTFontScriptsClass != 0),
        (a & kCTFontOrnamentalsClass != 0) == (b & kCTFontOrnamentalsClass != 0),
        (a & kCTFontSymbolicClass != 0) == (b & kCTFontSymbolicClass != 0),
{
    lemma_any_serif_class();
    lemma_class_field(a, 7);
    lemma_class_field(b, 7);
    lemma_class_field(a, 8);
    lemma_class_field(b, 8);
    lemma_class_field(a, 10);
    lemma_class_field(b, 10);
    lemma_class_field(a, 9);
    lemma_class_field(b, 9);
    lemma_class_field(a, 12);
    lemma_class_field(b, 12);
}

} // verus!
