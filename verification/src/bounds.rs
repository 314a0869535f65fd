//! The range of frequencies that the hardware supports, as its capability
//! files state it. They are read once, before the loop starts.

use vstd::prelude::*;
use crate::decimal::{content_view, file_value, parse_int_file};
use crate::error::GovernorError;

verus! {

/// File that holds the lowest frequency the hardware supports.
pub const MIN_FREQ_FILE: &'static str = "/sys/devices/system/cpu/cpu0/cpufreq/cpuinfo_min_freq";

/// File that holds the highest frequency the hardware supports.
pub const MAX_FREQ_FILE: &'static str = "/sys/devices/system/cpu/cpu0/cpufreq/cpuinfo_max_freq";

/// The frequency that a capability file's content states. A file that is
/// missing has no content.
pub open spec fn bound(content: Option<Seq<char>>) -> Result<u64, GovernorError> {
    match content {
        Some(text) => match file_value(text) {
            Some(frequency) => Ok(frequency),
            None => Err(GovernorError::BoundsReadError),
        },
        None => Err(GovernorError::BoundsReadError),
    }
}

/// Reads the content of a capability file.
fn read_bound(content: Option<&str>) -> (frequency: Result<u64, GovernorError>)
    ensures
        frequency == bound(content_view(content)),
{
    match content {
        Some(text) => match parse_int_file(text) {
            Some(frequency) => Ok(frequency),
            None => Err(GovernorError::BoundsReadError),
        },
        None => Err(GovernorError::BoundsReadError),
    }
}

/// The lowest frequency the hardware supports, from the content of
/// `MIN_FREQ_FILE`. `None` is a file that could not be read.
pub fn min_frequency(content: Option<&str>) -> (frequency: Result<u64, GovernorError>)
    ensures
        frequency == bound(content_view(content)),
{
    read_bound(content)
}

/// The highest frequency the hardware supports, from the content of
/// `MAX_FREQ_FILE`. `None` is a file that could not be read.
pub fn max_frequency(content: Option<&str>) -> (frequency: Result<u64, GovernorError>)
    ensures
        frequency == bound(content_view(content)),
{
    read_bound(content)
}

} // verus!
