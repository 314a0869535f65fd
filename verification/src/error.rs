use vstd::prelude::*;

verus! {

/// Why the governor cannot go on. None of these is retried: each one ends
/// the run.
#[derive(Debug, Clone, Copy, PartialEq, Eq, Structural)]
pub enum GovernorError {
    /// The command line did not hold exactly one valid target temperature.
    InvalidArgument,
    /// None of the candidate temperature sensors is present.
    SensorUnavailable,
    /// The chosen sensor could not be read as a non-negative integer.
    SensorReadError,
    /// A frequency capability file is missing or is not a number.
    BoundsReadError,
    /// Writing the cap for one of the cores failed.
    ActuationError,
}

} // verus!
