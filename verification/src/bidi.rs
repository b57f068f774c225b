//! The Bidi_Class property: its values, and sets of them as bit masks.

use crate::bits::{lemma_and_bit, lemma_or_bit, lemma_single_bits_overlap, lemma_zero_if_no_bit};
use vstd::prelude::*;

verus! {

/// The values of the Bidi_Class property, under their short names. They stand in
/// the order in which `unicode_bidi::BidiClass` declares them: the place of a
/// value here is its `index`.
#[derive(Clone, Copy, Debug, PartialEq, Eq, Structural)]
pub enum BidiClassValue {
    /// Arabic_Letter
    AL,
    /// Arabic_Number
    AN,
    /// Paragraph_Separator
    B,
    /// Boundary_Neutral
    BN,
    /// Common_Separator
    CS,
    /// European_Number
    EN,
    /// European_Separator
    ES,
    /// European_Terminator
    ET,
    /// First_Strong_Isolate
    FSI,
    /// Left_To_Right
    L,
    /// Left_To_Right_Embedding
    LRE,
    /// Left_To_Right_Isolate
    LRI,
    /// Left_To_Right_Override
    LRO,
    /// Nonspacing_Mark
    NSM,
    /// Other_Neutral
    ON,
    /// Pop_Directional_Format
    PDF,
    /// Pop_Directional_Isolate
    PDI,
    /// Right_To_Left
    R,
    /// Right_To_Left_Embedding
    RLE,
    /// Right_To_Left_Isolate
    RLI,
    /// Right_To_Left_Override
    RLO,
    /// Segment_Separator
    S,
    /// White_Space
    WS,
}

impl BidiClassValue {
    /// How many values the property has.
    pub const COUNT: u32 = 23;

    /// The position of the bit that stands for this value in a mask.
    pub open spec fn spec_index(self) -> u32 {
        match self {
            BidiClassValue::AL => 0,
            BidiClassValue::AN => 1,
            BidiClassValue::B => 2,
            BidiClassValue::BN => 3,
            BidiClassValue::CS => 4,
            BidiClassValue::EN => 5,
            BidiClassValue::ES => 6,
            BidiClassValue::ET => 7,
            BidiClassValue::FSI => 8,
            BidiClassValue::L => 9,
            BidiClassValue::LRE => 10,
            BidiClassValue::LRI => 11,
            BidiClassValue::LRO => 12,
            BidiClassValue::NSM => 13,
            BidiClassValue::ON => 14,
            BidiClassValue::PDF => 15,
            BidiClassValue::PDI => 16,
            BidiClassValue::R => 17,
            BidiClassValue::RLE => 18,
            BidiClassValue::RLI => 19,
            BidiClassValue::RLO => 20,
            BidiClassValue::S => 21,
            BidiClassValue::WS => 22,
        }
    }

    /// The value whose bit stands at position `i`; `L` where there is none.
    pub open spec fn spec_from_index(i: u32) -> BidiClassValue {
        if i == 0 {
            BidiClassValue::AL
        } else if i == 1 {
            BidiClassValue::AN
        } else if i == 2 {
            BidiClassValue::B
        } else if i == 3 {
            BidiClassValue::BN
        } else if i == 4 {
            BidiClassValue::CS
        } else if i == 5 {
            BidiClassValue::EN
        } else if i == 6 {
            BidiClassValue::ES
        } else if i == 7 {
            BidiClassValue::ET
        } else if i == 8 {
            BidiClassValue::FSI
        } else if i == 10 {
            BidiClassValue::LRE
        } else if i == 11 {
            BidiClassValue::LRI
        } else if i == 12 {
            BidiClassValue::LRO
        } else if i == 13 {
            BidiClassValue::NSM
        } else if i == 14 {
            BidiClassValue::ON
        } else if i == 15 {
            BidiClassValue::PDF
        } else if i == 16 {
            BidiClassValue::PDI
        } else if i == 17 {
            BidiClassValue::R
        } else if i == 18 {
            BidiClassValue::RLE
        } else if i == 19 {
            BidiClassValue::RLI
        } else if i == 20 {
            BidiClassValue::RLO
        } else if i == 21 {
            BidiClassValue::S
        } else if i == 22 {
            BidiClassValue::WS
        } else {
            BidiClassValue::L
        }
    }

    /// The position of the bit that stands for this value in a mask.
    #[verifier::when_used_as_spec(spec_index)]
    pub fn index(self) -> (i: u32)
        ensures
            i == self.spec_index(),
            i < BidiClassValue::COUNT,
    {
        match self {
            BidiClassValue::AL => 0,
            BidiClassValue::AN => 1,
            BidiClassValue::B => 2,
            BidiClassValue::BN => 3,
            BidiClassValue::CS => 4,
            BidiClassValue::EN => 5,
            BidiClassValue::ES => 6,
            BidiClassValue::ET => 7,
            BidiClassValue::FSI => 8,
            BidiClassValue::L => 9,
            BidiClassValue::LRE => 10,
            BidiClassValue::LRI => 11,
            BidiClassValue::LRO => 12,
            BidiClassValue::NSM => 13,
            BidiClassValue::ON => 14,
            BidiClassValue::PDF => 15,
            BidiClassValue::PDI => 16,
            BidiClassValue::R => 17,
            BidiClassValue::RLE => 18,
            BidiClassValue::RLI => 19,
            BidiClassValue::RLO => 20,
            BidiClassValue::S => 21,
            BidiClassValue::WS => 22,
        }
    }

    /// The value whose bit stands at position `i`; `L` where there is none.
    #[verifier::when_used_as_spec(spec_from_index)]
    pub fn from_index(i: u32) -> (v: BidiClassValue)
        ensures
            v == BidiClassValue::spec_from_index(i),
            i < BidiClassValue::COUNT ==> v.index() == i,
    {
        match i {
            0 => BidiClassValue::AL,
            1 => BidiClassValue::AN,
            2 => BidiClassValue::B,
            3 => BidiClassValue::BN,
            4 => BidiClassValue::CS,
            5 => BidiClassValue::EN,
            6 => BidiClassValue::ES,
            7 => BidiClassValue::ET,
            8 => BidiClassValue::FSI,
            9 => BidiClassValue::L,
            10 => BidiClassValue::LRE,
            11 => BidiClassValue::LRI,
            12 => BidiClassValue::LRO,
            13 => BidiClassValue::NSM,
            14 => BidiClassValue::ON,
            15 => BidiClassValue::PDF,
            16 => BidiClassValue::PDI,
            17 => BidiClassValue::R,
            18 => BidiClassValue::RLE,
            19 => BidiClassValue::RLI,
            20 => BidiClassValue::RLO,
            21 => BidiClassValue::S,
            22 => BidiClassValue::WS,
            _ => BidiClassValue::L,
        }
    }
}

/// Every value has a position below `COUNT`, and no two values share one.
pub proof fn lemma_bidi_class_index(v: BidiClassValue)
    ensures
        v.index() < BidiClassValue::COUNT,
        BidiClassValue::from_index(v.index()) == v,
{
}

/// Whether some value is in both sets. It names each value in turn, so that no
/// witness has to be found.
pub open spec fn bidi_classes_overlap(a: Set<BidiClassValue>, b: Set<BidiClassValue>) -> bool {
    ||| a.contains(BidiClassValue::AL) && b.contains(BidiClassValue::AL)
    ||| a.contains(BidiClassValue::AN) && b.contains(BidiClassValue::AN)
    ||| a.contains(BidiClassValue::B) && b.contains(BidiClassValue::B)
    ||| a.contains(BidiClassValue::BN) && b.contains(BidiClassValue::BN)
    ||| a.contains(BidiClassValue::CS) && b.contains(BidiClassValue::CS)
    ||| a.contains(BidiClassValue::EN) && b.contains(BidiClassValue::EN)
    ||| a.contains(BidiClassValue::ES) && b.contains(BidiClassValue::ES)
    ||| a.contains(BidiClassValue::ET) && b.contains(BidiClassValue::ET)
    ||| a.contains(BidiClassValue::FSI) && b.contains(BidiClassValue::FSI)
    ||| a.contains(BidiClassValue::L) && b.contains(BidiClassValue::L)
    ||| a.contains(BidiClassValue::LRE) && b.contains(BidiClassValue::LRE)
    ||| a.contains(BidiClassValue::LRI) && b.contains(BidiClassValue::LRI)
    ||| a.contains(BidiClassValue::LRO) && b.contains(BidiClassValue::LRO)
    ||| a.contains(BidiClassValue::NSM) && b.contains(BidiClassValue::NSM)
    ||| a.contains(BidiClassValue::ON) && b.contains(BidiClassValue::ON)
    ||| a.contains(BidiClassValue::PDF) && b.contains(BidiClassValue::PDF)
    ||| a.contains(BidiClassValue::PDI) && b.contains(BidiClassValue::PDI)
    ||| a.contains(BidiClassValue::R) && b.contains(BidiClassValue::R)
    ||| a.contains(BidiClassValue::RLE) && b.contains(BidiClassValue::RLE)
    ||| a.contains(BidiClassValue::RLI) && b.contains(BidiClassValue::RLI)
    ||| a.contains(BidiClassValue::RLO) && b.contains(BidiClassValue::RLO)
    ||| a.contains(BidiClassValue::S) && b.contains(BidiClassValue::S)
    ||| a.contains(BidiClassValue::WS) && b.contains(BidiClassValue::WS)
}

/// A set of Bidi_Class values, one bit for each value.
#[derive(Clone, Copy)]
pub struct BidiClassMask(u32);

/// Turns a bidi class into a mask for comparing with multiple classes at once.
fn bidi_class_to_mask(bc: BidiClassValue) -> (bits: u32)
    ensures
        bits == 1u32 << bc.index(),
        bits < 0x80_0000,
{
    let i: u32 = bc.index();
    assert((1u32 << i) < 0x80_0000) by (bit_vector)
        requires
            i < 23,
    ;
    1u32 << i
}

impl BidiClassMask {
    /// No bit is set but those that stand for a value.
    #[verifier::type_invariant]
    spec fn wf(self) -> bool {
        self.0 < 0x80_0000
    }

    /// The values that the mask holds.
    pub closed spec fn view(self) -> Set<BidiClassValue> {
        Set::new(|v: BidiClassValue| self.0 & (1u32 << v.index()) != 0)
    }

    /// Whether the two masks hold a value in common.
    pub open spec fn spec_intersects(self, other: BidiClassMask) -> bool {
        bidi_classes_overlap(self@, other@)
    }

    /// The mask that holds `v` and nothing else.
    fn single(v: BidiClassValue) -> (m: BidiClassMask)
        ensures
            m@ == set![v],
            m.0 == 1u32 << v.index(),
    {
        let bits: u32 = bidi_class_to_mask(v);
        let m = BidiClassMask(bits);
        proof {
            lemma_single_view(v);
        }
        m
    }

    /// The mask that holds `v` and what `self` holds.
    fn with(self, v: BidiClassValue) -> (m: BidiClassMask)
        ensures
            m@ == self@.insert(v),
    {
        proof {
            use_type_invariant(self);
        }
        let a: u32 = self.0;
        let b: u32 = bidi_class_to_mask(v);
        assert((a | b) < 0x80_0000) by (bit_vector)
            requires
                a < 0x80_0000,
                b < 0x80_0000,
        ;
        let m = BidiClassMask(a | b);
        proof {
            assert forall|w: BidiClassValue| m@.contains(w) <==> (self@.contains(w) || w == v) by {
                lemma_or_bit(a, b, w.index());
                lemma_single_bits_overlap(v.index(), w.index());
            }
        }
        m
    }

    /// `true` iff both masks have a `BidiClass` in common.
    #[verifier::when_used_as_spec(spec_intersects)]
    pub fn intersects(self, other: BidiClassMask) -> (r: bool)
        ensures
            r == self.spec_intersects(other),
            r == !self@.disjoint(other@),
    {
        proof {
            use_type_invariant(self);
            use_type_invariant(other);
        }
        let a: u32 = self.0;
        let b: u32 = other.0;
        proof {
            if a & b == 0 {
                // No bit in common, so no value in common.
                assert forall|w: BidiClassValue| self@.contains(w) implies !other@.contains(w) by {
                    lemma_and_bit(a, b, w.index());
                    assert((0u32 & (1u32 << w.index())) == 0) by (bit_vector);
                }
            } else if self@.disjoint(other@) {
                // Every bit of a mask stands for a value: with no value in
                // common, `a & b` would have no bit set.
                assert forall|k: u32| k < 23 implies (a & b) & (1u32 << k) == 0 by {
                    let w = BidiClassValue::from_index(k);
                    lemma_and_bit(a, b, k);
                    assert(!(self@.contains(w) && other@.contains(w)));
                }
                assert((a & b) < (1u32 << 23u32)) by (bit_vector)
                    requires
                        a < 0x80_0000,
                ;
                lemma_zero_if_no_bit(a & b, 23);
            }
        }
        a & b != 0
    }
}

/// The word with the one bit of `v` set is the mask of `v` alone.
proof fn lemma_single_view(v: BidiClassValue)
    ensures
        BidiClassMask(1u32 << v.index())@ == set![v],
{
    let m = BidiClassMask(1u32 << v.index());
    assert forall|w: BidiClassValue| m@.contains(w) <==> w == v by {
        lemma_single_bits_overlap(v.index(), w.index());
    }
}

/// Mask for checking if the domain is a bidi domain.
pub fn rtl_mask() -> (m: BidiClassMask)
    ensures
        m@ == set![BidiClassValue::R, BidiClassValue::AL, BidiClassValue::AN],
{
    BidiClassMask::single(BidiClassValue::R).with(BidiClassValue::AL).with(BidiClassValue::AN)
}

/// Mask for allowable bidi classes in the first character of a label
/// (either LTR or RTL) in a bidi domain.
pub fn first_bc_mask() -> (m: BidiClassMask)
    ensures
        m@ == set![BidiClassValue::L, BidiClassValue::R, BidiClassValue::AL],
{
    BidiClassMask::single(BidiClassValue::L).with(BidiClassValue::R).with(BidiClassValue::AL)
}

/// Mask for allowable bidi classes of the last (non-Non-Spacing Mark)
/// character in an LTR label in a bidi domain.
pub fn last_ltr_mask() -> (m: BidiClassMask)
    ensures
        m@ == set![BidiClassValue::L, BidiClassValue::EN],
{
    BidiClassMask::single(BidiClassValue::L).with(BidiClassValue::EN)
}

/// Mask for allowable bidi classes of the last (non-Non-Spacing Mark)
/// character in an RTL label in a bidi domain.
pub fn last_rtl_mask() -> (m: BidiClassMask)
    ensures
        m@ == set![BidiClassValue::R, BidiClassValue::AL, BidiClassValue::EN, BidiClassValue::AN],
{
    BidiClassMask::single(BidiClassValue::R)
        .with(BidiClassValue::AL)
        .with(BidiClassValue::EN)
        .with(BidiClassValue::AN)
}

/// Mask for allowable bidi classes of the middle characters in an LTR label
/// in a bidi domain.
pub fn middle_ltr_mask() -> (m: BidiClassMask)
    ensures
        m@ == set![
            BidiClassValue::L,
            BidiClassValue::EN,
            BidiClassValue::ES,
            BidiClassValue::CS,
            BidiClassValue::ET,
            BidiClassValue::ON,
            BidiClassValue::BN,
            BidiClassValue::NSM,
        ],
{
    BidiClassMask::single(BidiClassValue::L)
        .with(BidiClassValue::EN)
        .with(BidiClassValue::ES)
        .with(BidiClassValue::CS)
        .with(BidiClassValue::ET)
        .with(BidiClassValue::ON)
        .with(BidiClassValue::BN)
        .with(BidiClassValue::NSM)
}

/// Mask for allowable bidi classes of the middle characters in an RTL label
/// in a bidi domain.
pub fn middle_rtl_mask() -> (m: BidiClassMask)
    ensures
        m@ == set![
            BidiClassValue::R,
            BidiClassValue::AL,
            BidiClassValue::AN,
            BidiClassValue::EN,
            BidiClassValue::ES,
            BidiClassValue::CS,
            BidiClassValue::ET,
            BidiClassValue::ON,
            BidiClassValue::BN,
            BidiClassValue::NSM,
        ],
{
    BidiClassMask::single(BidiClassValue::R)
        .with(BidiClassValue::AL)
        .with(BidiClassValue::AN)
        .with(BidiClassValue::EN)
        .with(BidiClassValue::ES)
        .with(BidiClassValue::CS)
        .with(BidiClassValue::ET)
        .with(BidiClassValue::ON)
        .with(BidiClassValue::BN)
        .with(BidiClassValue::NSM)
}

/// A value of the Bidi_Class property.
#[derive(Clone, Copy)]
pub struct BidiClass(BidiClassValue);

impl BidiClass {
    /// The property value that this is.
    pub closed spec fn view(self) -> BidiClassValue {
        self.0
    }

    /// The mask that holds this value and nothing else.
    pub closed spec fn spec_to_mask(self) -> BidiClassMask {
        BidiClassMask(1u32 << self.0.index())
    }

    /// Wraps a property value.
    pub fn new(value: BidiClassValue) -> (bc: BidiClass)
        ensures
            bc@ == value,
    {
        BidiClass(value)
    }

    /// The property value that this is.
    pub fn value(self) -> (v: BidiClassValue)
        ensures
            v == self@,
    {
        self.0
    }

    /// Returns the corresponding `BidiClassMask`.
    #[verifier::when_used_as_spec(spec_to_mask)]
    pub fn to_mask(self) -> (m: BidiClassMask)
        ensures
            m == self.spec_to_mask(),
            m@ == set![self@],
    {
        BidiClassMask::single(self.0)
    }

    /// `true` iff this value is Left_To_Right
    pub fn is_ltr(self) -> (r: bool)
        ensures
            r == (self@ == BidiClassValue::L),
    {
        self.0 == BidiClassValue::L
    }

    /// `true` iff this value is Nonspacing_Mark
    pub fn is_nonspacing_mark(self) -> (r: bool)
        ensures
            r == (self@ == BidiClassValue::NSM),
    {
        self.0 == BidiClassValue::NSM
    }

    /// `true` iff this value is European_Number
    pub fn is_european_number(self) -> (r: bool)
        ensures
            r == (self@ == BidiClassValue::EN),
    {
        self.0 == BidiClassValue::EN
    }

    /// `true` iff this value is Arabic_Number
    pub fn is_arabic_number(self) -> (r: bool)
        ensures
            r == (self@ == BidiClassValue::AN),
    {
        self.0 == BidiClassValue::AN
    }
}

/// The mask of a value holds that value and no other.
pub proof fn lemma_bidi_to_mask_view(bc: BidiClass)
    ensures
        bc.to_mask()@ == set![bc@],
{
    lemma_single_view(bc@);
}

/// A value's mask always intersects itself.
pub proof fn lemma_bidi_mask_intersects_itself(bc: BidiClass)
    ensures
        bc.to_mask().intersects(bc.to_mask()),
{
    lemma_bidi_to_mask_view(bc);
}

/// A mask intersects the mask of a value exactly when it holds that value.
pub proof fn lemma_bidi_intersects_to_mask(m: BidiClassMask, bc: BidiClass)
    ensures
        m.intersects(bc.to_mask()) == m@.contains(bc@),
        bc.to_mask().intersects(m) == m@.contains(bc@),
{
    lemma_bidi_to_mask_view(bc);
}

/// Two masks intersect exactly when some value is in both: the masks of two
/// sets of values that share none never intersect.
pub proof fn lemma_bidi_intersects_iff_common_value(a: BidiClassMask, b: BidiClassMask)
    ensures
        a.intersects(b) == !a@.disjoint(b@),
        a.intersects(b) == b.intersects(a),
{
    if !a@.disjoint(b@) {
        let v = choose|v: BidiClassValue| a@.contains(v) && b@.contains(v);
        assert(a@.contains(v) && b@.contains(v));
    }
}

} // verus!
