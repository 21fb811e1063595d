//! Small shared helpers: an addition, an error type and a configuration record.

use vstd::prelude::*;
use vstd::string::*;

verus! {

/// What went wrong in a shared helper, with the detail the caller supplied.
#[derive(Debug)]
pub enum CommonError {
    InvalidInput(String),
    OperationFailed(String),
}

impl CommonError {
    /// The detail that the error carries.
    pub open spec fn detail(self) -> Seq<char> {
        match self {
            CommonError::InvalidInput(d) => d@,
            CommonError::OperationFailed(d) => d@,
        }
    }

    /// The text of the error: a fixed prefix for the variant, then the detail.
    pub open spec fn message_text(self) -> Seq<char> {
        match self {
            CommonError::InvalidInput(d) => "Invalid input: "@ + d@,
            CommonError::OperationFailed(d) => "Operation failed: "@ + d@,
        }
    }

    /// Renders the error for display.
    pub fn message(&self) -> (text: String)
        ensures
            text@ == self.message_text(),
    {
        match self {
            CommonError::InvalidInput(d) => String::from_str("Invalid input: ").concat(d.as_str()),
            CommonError::OperationFailed(d) => String::from_str("Operation failed: ").concat(
                d.as_str(),
            ),
        }
    }
}

/// A named integer setting.
#[derive(Debug)]
pub struct Config {
    pub name: String,
    pub value: i32,
}

/// The sum of two integers. The sum has to fit in an `i32`.
pub fn add_numbers(a: i32, b: i32) -> (sum: i32)
    requires
        i32::MIN <= a + b <= i32::MAX,
    ensures
        sum == a + b,
{
    a + b
}

} // verus!
