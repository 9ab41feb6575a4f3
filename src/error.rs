//! Errors reported by the driver.

use vstd::prelude::*;

verus! {

/// A register field was given a value outside its legal range.
#[derive(Clone, Copy, Debug, PartialEq, Eq)]
pub struct FieldError {
    /// The field's name, as the datasheet spells it.
    pub field: &'static str,
    /// The values the field accepts.
    pub legal: &'static str,
}

/// Errors that occur while operating the radio.
#[derive(Debug, PartialEq, Eq)]
pub enum RadioError<SPIE, GPIOE> {
    /// A buffer's length differs from the one the operation requires.
    InvalidBufferLenth { expected: usize, found: usize },
    /// A configuration value does not fit the register field it feeds.
    InvalidConfiguration(FieldError),
    /// A value written during configuration did not read back; names the step.
    FailedConfiguration(&'static str),
    /// A bounded wait on the radio ran out before the radio was ready.
    Timeout,
    /// The signal line reported an error.
    GpioError(GPIOE),
    /// The serial bus reported an error.
    SpiError(SPIE),
}

} // verus!
