use vstd::prelude::*;

verus! {

/// The VST3 result code for success (`kResultOk`, also `kResultTrue`).
pub const RESULT_OK: i32 = 0;

/// The VST3 result codes other than success, as the host and plugin exchange them.
#[derive(Clone, Copy, Debug, PartialEq, Eq, Structural)]
pub enum Error {
    NoInterface,
    ResultFalse,
    InvalidArgument,
    NotImplemented,
    InternalError,
    NotInitialized,
    OutOfMemory,
}

/// The numeric result code of each error.
pub open spec fn error_code(error: Error) -> i32 {
    match error {
        Error::NoInterface => -1i32,
        Error::ResultFalse => 1,
        Error::InvalidArgument => 2,
        Error::NotImplemented => 3,
        Error::InternalError => 4,
        Error::NotInitialized => 5,
        Error::OutOfMemory => 6,
    }
}

/// The error a result code stands for, if any.
pub open spec fn error_from_code(code: i32) -> Option<Error> {
    if code == -1 {
        Some(Error::NoInterface)
    } else if code == 1 {
        Some(Error::ResultFalse)
    } else if code == 2 {
        Some(Error::InvalidArgument)
    } else if code == 3 {
        Some(Error::NotImplemented)
    } else if code == 4 {
        Some(Error::InternalError)
    } else if code == 5 {
        Some(Error::NotInitialized)
    } else if code == 6 {
        Some(Error::OutOfMemory)
    } else {
        None
    }
}

pub open spec fn error_message(error: Error) -> Seq<char> {
    match error {
        Error::NoInterface => "No interface"@,
        Error::ResultFalse => "False"@,
        Error::InvalidArgument => "Invalid argument"@,
        Error::NotImplemented => "Not implemented"@,
        Error::InternalError => "Internal error"@,
        Error::NotInitialized => "Not initialized"@,
        Error::OutOfMemory => "Out of memory"@,
    }
}

impl Error {
    pub fn code(&self) -> (code: i32)
        ensures
            code == error_code(*self),
    {
        match self {
            Error::NoInterface => -1i32,
            Error::ResultFalse => 1,
            Error::InvalidArgument => 2,
            Error::NotImplemented => 3,
            Error::InternalError => 4,
            Error::NotInitialized => 5,
            Error::OutOfMemory => 6,
        }
    }

    pub fn from_i32(code: i32) -> (error: Option<Error>)
        ensures
            error == error_from_code(code),
    {
        if code == -1 {
            Some(Error::NoInterface)
        } else if code == 1 {
            Some(Error::ResultFalse)
        } else if code == 2 {
            Some(Error::InvalidArgument)
        } else if code == 3 {
            Some(Error::NotImplemented)
        } else if code == 4 {
            Some(Error::InternalError)
        } else if code == 5 {
            Some(Error::NotInitialized)
        } else if code == 6 {
            Some(Error::OutOfMemory)
        } else {
            None
        }
    }

    /// The error's description.
    pub fn message(&self) -> (message: String)
        ensures
            message@ == error_message(*self),
    {
        match self {
            Error::NoInterface => String::from_str("No interface"),
            Error::ResultFalse => String::from_str("False"),
            Error::InvalidArgument => String::from_str("Invalid argument"),
            Error::NotImplemented => String::from_str("Not implemented"),
            Error::InternalError => String::from_str("Internal error"),
            Error::NotInitialized => String::from_str("Not initialized"),
            Error::OutOfMemory => String::from_str("Out of memory"),
        }
    }
}

/// An error's code reads back as that error, and a code that reads as an error is that
/// error's code; success reads as no error.
pub proof fn lemma_error_code_round_trip(error: Error, code: i32)
    ensures
        error_from_code(error_code(error)) == Some(error),
        error_from_code(code) == Some(error) ==> error_code(error) == code,
        error_from_code(RESULT_OK) is None,
{
}

} // verus!
