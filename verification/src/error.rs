//! Errors of the utility crate that hold plain values.

use vstd::prelude::*;
use crate::text::{push_char, string_of};

verus! {

/// Why a parameter key or value was refused.
#[derive(Debug)]
pub enum ParamError {
    Empty,
    InvalidChar(char),
}

/// The message of a parameter error.
pub open spec fn spec_param_error_message(e: ParamError) -> Seq<char> {
    match e {
        ParamError::Empty => "Parameter key/value was empty"@,
        ParamError::InvalidChar(c) => "Invalid character found in key/value: "@.push(c),
    }
}

impl ParamError {
    /// The message of this error, as it is displayed.
    pub fn message(&self) -> (r: String)
        ensures
            r@ == spec_param_error_message(*self),
    {
        match self {
            ParamError::Empty => string_of("Parameter key/value was empty"),
            ParamError::InvalidChar(c) => {
                let mut s = string_of("Invalid character found in key/value: ");
                push_char(&mut s, *c);
                s
            },
        }
    }
}

} // verus!
