//! Unicode character properties and UTS 46 mapping with canonical
//! composition, as an IDNA processor needs them.
//!
//! [`Adapter`] answers for one code point (its Bidi_Class, its Joining_Type,
//! whether it is a Virama or a combining mark) and transforms a sequence of
//! code points. [`BidiClassMask`] and [`JoiningTypeMask`] hold sets of
//! property values, so that one `intersects` tells whether a value is among
//! those that a rule allows.
//!
//! The Unicode data itself belongs to other crates. The module [`unicode`]
//! names what they return and states what is taken from them on trust; all
//! else is verified against that.

pub mod adapter;
pub mod bidi;
mod bits;
pub mod joining;
pub mod unicode;

pub use crate::adapter::Adapter;
pub use crate::bidi::{
    first_bc_mask, last_ltr_mask, last_rtl_mask, middle_ltr_mask, middle_rtl_mask, rtl_mask,
    BidiClass, BidiClassMask, BidiClassValue,
};
pub use crate::joining::{
    left_or_dual_joining_mask, right_or_dual_joining_mask, JoiningType, JoiningTypeMask,
    JoiningTypeValue,
};
