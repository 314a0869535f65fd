//! The command line: the program's name and the target temperature.

use vstd::prelude::*;
use crate::decimal::{numeral_value, parse_u64};
use crate::error::GovernorError;

verus! {

/// The target temperature that a command line asks for. The line holds the
/// program's name and then exactly one argument, a number of degrees.
pub open spec fn target_of(args: Seq<Seq<char>>) -> Result<u64, GovernorError> {
    if args.len() == 2 {
        match numeral_value(args[1]) {
            Some(target) => Ok(target),
            None => Err(GovernorError::InvalidArgument),
        }
    } else {
        Err(GovernorError::InvalidArgument)
    }
}

/// Reads the target temperature from the command line.
pub fn target_from_args(args: &Vec<String>) -> (target: Result<u64, GovernorError>)
    ensures
        target == target_of(args.deep_view()),
{
    if args.len() != 2 {
        return Err(GovernorError::InvalidArgument);
    }
    assert(args.deep_view()[1] == args@[1]@);
    match parse_u64(args[1].as_str()) {
        Some(target) => Ok(target),
        None => Err(GovernorError::InvalidArgument),
    }
}

} // verus!
