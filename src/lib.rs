//! Validation and code synthesis for flag-bag enumerations.
//!
//! A declaration is checked for a single supported integer representation and
//! for field-less variants; on success a capability unit (conversion plus a
//! metadata table) can be synthesized, and independently an operator unit
//! that combines variants into a bag of flags.

pub mod repr;
pub mod model;
pub mod diagnostic;
pub mod validate;
pub mod capability;
pub mod operator;
