//! Strongly typed electrical quantities stored as fixed-point integers:
//! current in microamps, voltage in microvolts, resistance in milliohms and
//! power in microwatts, with checked arithmetic and Ohm's law between them.
//!
//! Every operation that can leave the range of its storage, divide by zero
//! or meet an unusable operand returns a [`QuantityError`] instead.
use vstd::prelude::*;

pub mod current;
pub mod error;
pub mod guard;
pub mod law;
pub mod laws;
pub mod power;
pub mod resistance;
pub mod voltage;

pub use current::{Current, FromInteger as CurrentFromInteger};
pub use error::QuantityError;
pub use guard::FloatClass;
pub use power::{FromInteger as PowerFromInteger, Power};
pub use resistance::{FromInteger as ResistanceFromInteger, Resistance};
pub use voltage::{FromInteger as VoltageFromInteger, Voltage};

verus! {

} // verus!
