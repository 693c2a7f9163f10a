//! Reasons a request is refused.
use vstd::prelude::*;

verus! {

/// A malformed request. Each is found before any numeric work is done.
#[derive(PartialEq, Eq, Structural, Clone, Copy, Debug)]
pub enum Error {
    /// The request is shorter than its 4-byte selector.
    WrongSelectorLength,
    /// The selector names none of the operations.
    UnknownSelector,
    /// The argument block is not exactly 61 bytes long.
    WrongLengthOfArguments,
}

impl Error {
    /// The numeric code reported to the host; `0` stands for success and is
    /// never an error's code.
    pub open spec fn code_spec(self) -> u8 {
        match self {
            Error::WrongSelectorLength => 1,
            Error::UnknownSelector => 2,
            Error::WrongLengthOfArguments => 3,
        }
    }

    pub fn code(&self) -> (r: u8)
        ensures
            r == self.code_spec(),
            r != 0,
    {
        match self {
            Error::WrongSelectorLength => 1,
            Error::UnknownSelector => 2,
            Error::WrongLengthOfArguments => 3,
        }
    }
}

} // verus!
