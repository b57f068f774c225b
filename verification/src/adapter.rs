//! The adapter: property queries on one code point, and the two transforms
//! of a sequence of code points.

use crate::bidi::{BidiClass, BidiClassValue};
use crate::joining::{JoiningType, JoiningTypeValue};
use crate::unicode::{
    bidi_class_index, bidi_class_index_of, canonical_combining_class_of, is_combining_mark_of,
    joining_type_index, joining_type_index_of, nfc, nfc_of, uts46_map, uts46_mapped,
};
use vstd::prelude::*;

verus! {

/// The Canonical_Combining_Class that is called Virama.
pub const VIRAMA: u8 = 9;

/// The Bidi_Class of `c`: the value at the position that the back end gives.
pub open spec fn bidi_class_of(c: char) -> BidiClassValue {
    BidiClassValue::from_index(bidi_class_index_of(c))
}

/// The Joining_Type of `c`: the value at the position that the back end gives.
pub open spec fn joining_type_of(c: char) -> JoiningTypeValue {
    JoiningTypeValue::from_index(joining_type_index_of(c))
}

/// The UTS 46 mapping of `input`, validating or not, in Normalization Form C.
pub open spec fn normalized(input: Seq<char>, validating: bool) -> Seq<char> {
    nfc_of(uts46_mapped(input, validating))
}

/// An adapter between a Unicode back end and an IDNA processor.
#[non_exhaustive]
pub struct Adapter {}

impl Default for Adapter {
    fn default() -> (adapter: Self)
        ensures
            adapter == (Adapter {  }),
    {
        Self::new()
    }
}

/// Maps, then composes: the one pipeline behind both transforms.
fn map_then_compose(input: &[char], validating: bool) -> (output: Vec<char>)
    ensures
        output@ == normalized(input@, validating),
{
    let mapped = uts46_map(input, validating);
    nfc(mapped.as_slice())
}

impl Adapter {
    /// Constructor using data compiled into the binary.
    pub fn new() -> (adapter: Self)
        ensures
            adapter == (Adapter {  }),
    {
        Self {  }
    }

    /// `true` iff the Canonical_Combining_Class of `c` is Virama.
    pub fn is_virama(&self, c: char) -> (r: bool)
        ensures
            r == (canonical_combining_class_of(c) == VIRAMA),
    {
        unicode_normalization::char::canonical_combining_class(c) == VIRAMA
    }

    /// `true` iff the General_Category of `c` is Mark, i.e. any of Nonspacing_Mark,
    /// Spacing_Mark, or Enclosing_Mark.
    pub fn is_mark(&self, c: char) -> (r: bool)
        ensures
            r == is_combining_mark_of(c),
    {
        unicode_normalization::char::is_combining_mark(c)
    }

    /// Returns the Bidi_Class of `c`.
    pub fn bidi_class(&self, c: char) -> (bc: BidiClass)
        ensures
            bc@ == bidi_class_of(c),
    {
        BidiClass::new(BidiClassValue::from_index(bidi_class_index(c)))
    }

    /// Returns the Joining_Type of `c`.
    pub fn joining_type(&self, c: char) -> (jt: JoiningType)
        ensures
            jt@ == joining_type_of(c),
    {
        JoiningType::new(JoiningTypeValue::from_index(joining_type_index(c)))
    }

    /// Applies the UTS 46 mapping without validation, then composes
    /// canonically.
    pub fn map_normalize(&self, input: &[char]) -> (output: Vec<char>)
        ensures
            output@ == normalized(input@, false),
    {
        map_then_compose(input, false)
    }

    /// Applies the UTS 46 mapping with validation, then composes canonically.
    pub fn normalize_validate(&self, input: &[char]) -> (output: Vec<char>)
        ensures
            output@ == normalized(input@, true),
    {
        map_then_compose(input, true)
    }
}

/// The two transforms agree on every input that the mapping stage maps alike
/// with and without validation.
pub proof fn lemma_validation_agrees(input: Seq<char>)
    ensures
        uts46_mapped(input, true) == uts46_mapped(input, false) ==> normalized(input, true)
            == normalized(input, false),
{
}

} // verus!
