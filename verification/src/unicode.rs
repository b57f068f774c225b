//! The Unicode data and transforms behind the adapter. They live in other
//! crates; what this module says of them is taken on trust.

use unicode_normalization::UnicodeNormalization;
use vstd::prelude::*;

verus! {

/// The Canonical_Combining_Class of `c` in the Unicode Character Database.
pub uninterp spec fn canonical_combining_class_of(c: char) -> u8;

/// Whether the General_Category of `c` is Mark.
pub uninterp spec fn is_combining_mark_of(c: char) -> bool;

/// The Bidi_Class of `c`, as the position of the class in the declaration of
/// `unicode_bidi::BidiClass`.
pub uninterp spec fn bidi_class_index_of(c: char) -> u32;

/// The Joining_Type of `c`, as the position of the type in the declaration of
/// `unicode_joining_type::JoiningType`.
pub uninterp spec fn joining_type_index_of(c: char) -> u32;

/// What `idna_mapping::Mapper` makes of a sequence of code points: their
/// UTS 46 mapping. The flag is the mapper's own: it selects validation.
pub uninterp spec fn uts46_mapped(input: Seq<char>, ignored_as_errors: bool) -> Seq<char>;

/// A sequence of code points in Normalization Form C: decomposed canonically,
/// then composed canonically.
pub uninterp spec fn nfc_of(input: Seq<char>) -> Seq<char>;

/// `unicode_normalization::char::canonical_combining_class` looks the class up
/// in a table; the claim is that it is a function of the code point alone.
pub assume_specification[ unicode_normalization::char::canonical_combining_class ](c: char) -> (ccc: u8)
    ensures
        ccc == canonical_combining_class_of(c),
;

/// `unicode_normalization::char::is_combining_mark` looks the category up in
/// a table; the claim is that it is a function of the code point alone.
pub assume_specification[ unicode_normalization::char::is_combining_mark ](c: char) -> (mark: bool)
    ensures
        mark == is_combining_mark_of(c),
;

/// Calls `unicode_bidi::bidi_class` and gives the class by its position in the
/// declaration of `unicode_bidi::BidiClass`. The claim is that the class is a
/// function of the code point alone.
#[verifier::external_body]
pub(crate) fn bidi_class_index(c: char) -> (i: u32)
    ensures
        i == bidi_class_index_of(c),
{
    unicode_bidi::bidi_class(c) as u32
}

/// Calls `unicode_joining_type::get_joining_type` and gives the type by its
/// position in the declaration of `unicode_joining_type::JoiningType`. The
/// claim is that the type is a function of the code point alone.
#[verifier::external_body]
pub(crate) fn joining_type_index(c: char) -> (i: u32)
    ensures
        i == joining_type_index_of(c),
{
    unicode_joining_type::get_joining_type(c) as u32
}

/// Runs `idna_mapping::Mapper` over `input` to its end. The claim is that what
/// it yields is a function of the input and the flag alone.
#[verifier::external_body]
pub(crate) fn uts46_map(input: &[char], ignored_as_errors: bool) -> (mapped: Vec<char>)
    ensures
        mapped@ == uts46_mapped(input@, ignored_as_errors),
{
    idna_mapping::Mapper::new(input.iter().copied(), ignored_as_errors).collect()
}

/// Runs `unicode_normalization::UnicodeNormalization::nfc` over `input` to its
/// end. The claim is that what it yields is a function of the input alone.
#[verifier::external_body]
pub(crate) fn nfc(input: &[char]) -> (composed: Vec<char>)
    ensures
        composed@ == nfc_of(input@),
{
    input.iter().copied().nfc().collect()
}

} // verus!
