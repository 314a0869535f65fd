//! Finding the temperature sensor and reading it.
//!
//! The candidate sensor files are tried in a fixed order, and the first one
//! that is present is read. The driver looks at the file system; this module
//! says which file to look at next and what a reading means.

use vstd::prelude::*;
use crate::decimal::{
    content_view, decimal_text, file_value, is_whitespace, lemma_file_round_trip, parse_int_file,
};
use crate::error::GovernorError;

verus! {

/// How many sensor files are tried.
pub const CANDIDATES: usize = 9;

/// How many thousandths of a degree make a degree.
pub const MILLI: u64 = 1000;

/// The files in which the temperature may be found, in the order in which
/// they are tried: thermal zones first, then hardware monitors.
pub open spec fn candidates() -> Seq<Seq<char>> {
    seq![
        "/sys/class/thermal/thermal_zone0/temp"@,
        "/sys/class/thermal/thermal_zone1/temp"@,
        "/sys/class/thermal/thermal_zone2/temp"@,
        "/sys/class/hwmon/hwmon0/temp1_input"@,
        "/sys/class/hwmon/hwmon1/temp1_input"@,
        "/sys/class/hwmon/hwmon2/temp1_input"@,
        "/sys/class/hwmon/hwmon0/device/temp1_input"@,
        "/sys/class/hwmon/hwmon1/device/temp1_input"@,
        "/sys/class/hwmon/hwmon2/device/temp1_input"@,
    ]
}

/// The candidate sensor files, in the order in which they are tried.
pub fn possible_temp_files() -> (files: Vec<&'static str>)
    ensures
        files@.len() == CANDIDATES,
        files@.len() == candidates().len(),
        forall|i: int| 0 <= i < files@.len() ==> (#[trigger] files@[i])@ == candidates()[i],
{
    vec![
        "/sys/class/thermal/thermal_zone0/temp",
        "/sys/class/thermal/thermal_zone1/temp",
        "/sys/class/thermal/thermal_zone2/temp",
        "/sys/class/hwmon/hwmon0/temp1_input",
        "/sys/class/hwmon/hwmon1/temp1_input",
        "/sys/class/hwmon/hwmon2/temp1_input",
        "/sys/class/hwmon/hwmon0/device/temp1_input",
        "/sys/class/hwmon/hwmon1/device/temp1_input",
        "/sys/class/hwmon/hwmon2/device/temp1_input",
    ]
}

/// What the search for a sensor asks of the driver next.
#[derive(Clone, Copy, Debug, PartialEq, Eq, Structural)]
pub enum Scan {
    /// Look whether the candidate with this index is present.
    Probe(usize),
    /// Read the candidate with this index: it is the sensor.
    Read(usize),
}

/// How the search goes on once the candidate `index` was looked at: one
/// that is present is read; after one that is absent the next is looked at;
/// and when none is left, there is no sensor.
pub open spec fn step_after(index: usize, present: bool) -> Result<Scan, GovernorError> {
    if index < CANDIDATES && present {
        Ok(Scan::Read(index))
    } else if index + 1 < CANDIDATES {
        Ok(Scan::Probe((index + 1) as usize))
    } else {
        Err(GovernorError::SensorUnavailable)
    }
}

/// `index` is the first candidate that is present, where `present` says of
/// each candidate whether it is there.
pub open spec fn is_first_present(present: Seq<bool>, index: nat) -> bool {
    &&& index < present.len()
    &&& present[index as int]
    &&& forall|k: int| 0 <= k < index ==> !#[trigger] present[k]
}

/// The temperature that a sensor file's content stands for: the number in
/// it, which counts thousandths of a degree, divided by a thousand, with
/// the remainder dropped. A file that could not be read has no content.
pub open spec fn temperature(content: Option<Seq<char>>) -> Result<u64, GovernorError> {
    match content {
        Some(text) => match file_value(text) {
            Some(raw) => Ok(raw / MILLI),
            None => Err(GovernorError::SensorReadError),
        },
        None => Err(GovernorError::SensorReadError),
    }
}

/// The first step of the search: look at the first candidate.
pub fn begin_scan() -> (step: Scan)
    ensures
        step == Scan::Probe(0),
{
    Scan::Probe(0)
}

/// The next step of the search, once the driver has looked whether the
/// candidate `index` is present. With no candidate left to look at, the
/// search fails: there is no sensor.
pub fn after_probe(index: usize, present: bool) -> (step: Result<Scan, GovernorError>)
    ensures
        step == step_after(index, present),
{
    if index < CANDIDATES && present {
        Ok(Scan::Read(index))
    } else if index < CANDIDATES - 1 {
        Ok(Scan::Probe(index + 1))
    } else {
        Err(GovernorError::SensorUnavailable)
    }
}

/// The temperature in whole degrees that the sensor file's content stands
/// for. `None` is a file that could not be read.
pub fn get_temp(content: Option<&str>) -> (temp: Result<u64, GovernorError>)
    ensures
        temp == temperature(content_view(content)),
{
    match content {
        Some(text) => match parse_int_file(text) {
            Some(raw) => Ok(raw / MILLI),
            None => Err(GovernorError::SensorReadError),
        },
        None => Err(GovernorError::SensorReadError),
    }
}

/// A sensor file that holds the reading `raw`, in thousandths of a degree
/// and with white space around it, stands for `raw / 1000` degrees: the
/// thousandths are dropped, not rounded.
pub proof fn lemma_reading_truncates(raw: u64, before: Seq<char>, after: Seq<char>)
    requires
        forall|i: int| 0 <= i < before.len() ==> is_whitespace(#[trigger] before[i]),
        forall|i: int| 0 <= i < after.len() ==> is_whitespace(#[trigger] after[i]),
    ensures
        temperature(Some(before + decimal_text(raw as nat) + after)) == Ok::<u64, GovernorError>(
            (raw as nat / 1000) as u64,
        ),
{
    lemma_file_round_trip(raw, before, after);
}

} // verus!
