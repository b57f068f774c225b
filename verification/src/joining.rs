//! The Joining_Type property: its values, and sets of them as bit masks.

use crate::bits::{lemma_and_bit, lemma_or_bit, lemma_single_bits_overlap, lemma_zero_if_no_bit};
use vstd::prelude::*;

verus! {

/// The values of the Joining_Type property. They stand in
/// the order in which `unicode_joining_type::JoiningType` declares them: the place of a
/// value here is its `index`.
#[derive(Clone, Copy, Debug, PartialEq, Eq, Structural)]
pub enum JoiningTypeValue {
    DualJoining,
    JoinCausing,
    LeftJoining,
    NonJoining,
    RightJoining,
    Transparent,
}

impl JoiningTypeValue {
    /// How many values the property has.
    pub const COUNT: u32 = 6;

    /// The position of the bit that stands for this value in a mask.
    pub open spec fn spec_index(self) -> u32 {
        match self {
            JoiningTypeValue::DualJoining => 0,
            JoiningTypeValue::JoinCausing => 1,
            JoiningTypeValue::LeftJoining => 2,
            JoiningTypeValue::NonJoining => 3,
            JoiningTypeValue::RightJoining => 4,
            JoiningTypeValue::Transparent => 5,
        }
    }

    /// The value whose bit stands at position `i`; `NonJoining` where there is none.
    pub open spec fn spec_from_index(i: u32) -> JoiningTypeValue {
        if i == 0 {
            JoiningTypeValue::DualJoining
        } else if i == 1 {
            JoiningTypeValue::JoinCausing
        } else if i == 2 {
            JoiningTypeValue::LeftJoining
        } else if i == 4 {
            JoiningTypeValue::RightJoining
        } else if i == 5 {
            JoiningTypeValue::Transparent
        } else {
            JoiningTypeValue::NonJoining
        }
    }

    /// The position of the bit that stands for this value in a mask.
    #[verifier::when_used_as_spec(spec_index)]
    pub fn index(self) -> (i: u32)
        ensures
            i == self.spec_index(),
            i < JoiningTypeValue::COUNT,
    {
        match self {
            JoiningTypeValue::DualJoining => 0,
            JoiningTypeValue::JoinCausing => 1,
            JoiningTypeValue::LeftJoining => 2,
            JoiningTypeValue::NonJoining => 3,
            JoiningTypeValue::RightJoining => 4,
            JoiningTypeValue::Transparent => 5,
        }
    }

    /// The value whose bit stands at position `i`; `NonJoining` where there is none.
    #[verifier::when_used_as_spec(spec_from_index)]
    pub fn from_index(i: u32) -> (v: JoiningTypeValue)
        ensures
            v == JoiningTypeValue::spec_from_index(i),
            i < JoiningTypeValue::COUNT ==> v.index() == i,
    {
        match i {
            0 => JoiningTypeValue::DualJoining,
            1 => JoiningTypeValue::JoinCausing,
            2 => JoiningTypeValue::LeftJoining,
            3 => JoiningTypeValue::NonJoining,
            4 => JoiningTypeValue::RightJoining,
            5 => JoiningTypeValue::Transparent,
            _ => JoiningTypeValue::NonJoining,
        }
    }
}

/// Every value has a position below `COUNT`, and no two values share one.
pub proof fn lemma_joining_type_index(v: JoiningTypeValue)
    ensures
        v.index() < JoiningTypeValue::COUNT,
        JoiningTypeValue::from_index(v.index()) == v,
{
}

/// Whether some value is in both sets. It names each value in turn, so that no
/// witness has to be found.
pub open spec fn joining_types_overlap(a: Set<JoiningTypeValue>, b: Set<JoiningTypeValue>) -> bool {
    ||| a.contains(JoiningTypeValue::DualJoining) && b.contains(JoiningTypeValue::DualJoining)
    ||| a.contains(JoiningTypeValue::JoinCausing) && b.contains(JoiningTypeValue::JoinCausing)
    ||| a.contains(JoiningTypeValue::LeftJoining) && b.contains(JoiningTypeValue::LeftJoining)
    ||| a.contains(JoiningTypeValue::NonJoining) && b.contains(JoiningTypeValue::NonJoining)
    ||| a.contains(JoiningTypeValue::RightJoining) && b.contains(JoiningTypeValue::RightJoining)
    ||| a.contains(JoiningTypeValue::Transparent) && b.contains(JoiningTypeValue::Transparent)
}

/// A set of Joining_Type values, one bit for each value.
#[derive(Clone, Copy)]
pub struct JoiningTypeMask(u32);

/// Turns a joining type into a mask for comparing with multiple type at once.
fn joining_type_to_mask(jt: JoiningTypeValue) -> (bits: u32)
    ensures
        bits == 1u32 << jt.index(),
        bits < 0x40,
{
    let i: u32 = jt.index();
    assert((1u32 << i) < 0x40) by (bit_vector)
        requires
            i < 6,
    ;
    1u32 << i
}

impl JoiningTypeMask {
    /// No bit is set but those that stand for a value.
    #[verifier::type_invariant]
    spec fn wf(self) -> bool {
        self.0 < 0x40
    }

    /// The values that the mask holds.
    pub closed spec fn view(self) -> Set<JoiningTypeValue> {
        Set::new(|v: JoiningTypeValue| self.0 & (1u32 << v.index()) != 0)
    }

    /// Whether the two masks hold a value in common.
    pub open spec fn spec_intersects(self, other: JoiningTypeMask) -> bool {
        joining_types_overlap(self@, other@)
    }

    /// The mask that holds `v` and nothing else.
    fn single(v: JoiningTypeValue) -> (m: JoiningTypeMask)
        ensures
            m@ == set![v],
            m.0 == 1u32 << v.index(),
    {
        let bits: u32 = joining_type_to_mask(v);
        let m = JoiningTypeMask(bits);
        proof {
            lemma_single_view(v);
        }
        m
    }

    /// The mask that holds `v` and what `self` holds.
    fn with(self, v: JoiningTypeValue) -> (m: JoiningTypeMask)
        ensures
            m@ == self@.insert(v),
    {
        proof {
            use_type_invariant(self);
        }
        let a: u32 = self.0;
        let b: u32 = joining_type_to_mask(v);
        assert((a | b) < 0x40) by (bit_vector)
            requires
                a < 0x40,
                b < 0x40,
        ;
        let m = JoiningTypeMask(a | b);
        proof {
            assert forall|w: JoiningTypeValue| m@.contains(w) <==> (self@.contains(w) || w == v) by {
                lemma_or_bit(a, b, w.index());
                lemma_single_bits_overlap(v.index(), w.index());
            }
        }
        m
    }

    /// `true` iff both masks have a `JoiningType` in common.
    #[verifier::when_used_as_spec(spec_intersects)]
    pub fn intersects(self, other: JoiningTypeMask) -> (r: bool)
        ensures
            r == self.spec_intersects(other),
            r == !self@.disjoint(other@),
    {
        proof {
            use_type_invariant(self);
            use_type_invariant(other);
        }
        let a: u32 = self.0;
        let b: u32 = other.0;
        proof {
            if a & b == 0 {
                // No bit in common, so no value in common.
                assert forall|w: JoiningTypeValue| self@.contains(w) implies !other@.contains(w) by {
                    lemma_and_bit(a, b, w.index());
                    assert((0u32 & (1u32 << w.index())) == 0) by (bit_vector);
                }
            } else if self@.disjoint(other@) {
                // Every bit of a mask stands for a value: with no value in
                // common, `a & b` would have no bit set.
                assert forall|k: u32| k < 6 implies (a & b) & (1u32 << k) == 0 by {
                    let w = JoiningTypeValue::from_index(k);
                    lemma_and_bit(a, b, k);
                    assert(!(self@.contains(w) && other@.contains(w)));
                }
                assert((a & b) < (1u32 << 6u32)) by (bit_vector)
                    requires
                        a < 0x40,
                ;
                lemma_zero_if_no_bit(a & b, 6);
            }
        }
        a & b != 0
    }
}

/// The word with the one bit of `v` set is the mask of `v` alone.
proof fn lemma_single_view(v: JoiningTypeValue)
    ensures
        JoiningTypeMask(1u32 << v.index())@ == set![v],
{
    let m = JoiningTypeMask(1u32 << v.index());
    assert forall|w: JoiningTypeValue| m@.contains(w) <==> w == v by {
        lemma_single_bits_overlap(v.index(), w.index());
    }
}

/// Mask for checking for both left and dual joining.
pub fn left_or_dual_joining_mask() -> (m: JoiningTypeMask)
    ensures
        m@ == set![JoiningTypeValue::LeftJoining, JoiningTypeValue::DualJoining],
{
    JoiningTypeMask::single(JoiningTypeValue::LeftJoining).with(JoiningTypeValue::DualJoining)
}

/// Mask for checking for both right and dual joining.
pub fn right_or_dual_joining_mask() -> (m: JoiningTypeMask)
    ensures
        m@ == set![JoiningTypeValue::RightJoining, JoiningTypeValue::DualJoining],
{
    JoiningTypeMask::single(JoiningTypeValue::RightJoining).with(JoiningTypeValue::DualJoining)
}

/// A value of the Joining_Type property.
#[derive(Clone, Copy)]
pub struct JoiningType(JoiningTypeValue);

impl JoiningType {
    /// The property value that this is.
    pub closed spec fn view(self) -> JoiningTypeValue {
        self.0
    }

    /// The mask that holds this value and nothing else.
    pub closed spec fn spec_to_mask(self) -> JoiningTypeMask {
        JoiningTypeMask(1u32 << self.0.index())
    }

    /// Wraps a property value.
    pub fn new(value: JoiningTypeValue) -> (jt: JoiningType)
        ensures
            jt@ == value,
    {
        JoiningType(value)
    }

    /// The property value that this is.
    pub fn value(self) -> (v: JoiningTypeValue)
        ensures
            v == self@,
    {
        self.0
    }

    /// Returns the corresponding `JoiningTypeMask`.
    #[verifier::when_used_as_spec(spec_to_mask)]
    pub fn to_mask(self) -> (m: JoiningTypeMask)
        ensures
            m == self.spec_to_mask(),
            m@ == set![self@],
    {
        JoiningTypeMask::single(self.0)
    }

    /// `true` iff this value is the Transparent value.
    pub fn is_transparent(self) -> (r: bool)
        ensures
            r == (self@ == JoiningTypeValue::Transparent),
    {
        self.0 == JoiningTypeValue::Transparent
    }
}

/// The mask of a value holds that value and no other.
pub proof fn lemma_joining_to_mask_view(jt: JoiningType)
    ensures
        jt.to_mask()@ == set![jt@],
{
    lemma_single_view(jt@);
}

/// A value's mask always intersects itself.
pub proof fn lemma_joining_mask_intersects_itself(jt: JoiningType)
    ensures
        jt.to_mask().intersects(jt.to_mask()),
{
    lemma_joining_to_mask_view(jt);
}

/// A mask intersects the mask of a value exactly when it holds that value.
pub proof fn lemma_joining_intersects_to_mask(m: JoiningTypeMask, jt: JoiningType)
    ensures
        m.intersects(jt.to_mask()) == m@.contains(jt@),
        jt.to_mask().intersects(m) == m@.contains(jt@),
{
    lemma_joining_to_mask_view(jt);
}

/// Two masks intersect exactly when some value is in both: the masks of two
/// sets of values that share none never intersect.
pub proof fn lemma_joining_intersects_iff_common_value(a: JoiningTypeMask, b: JoiningTypeMask)
    ensures
        a.intersects(b) == !a@.disjoint(b@),
        a.intersects(b) == b.intersects(a),
{
    if !a@.disjoint(b@) {
        let v = choose|v: JoiningTypeValue| a@.contains(v) && b@.contains(v);
        assert(a@.contains(v) && b@.contains(v));
    }
}

} // verus!
