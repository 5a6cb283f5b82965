use vstd::prelude::*;

verus! {

#[verifier::external_type_specification]
#[verifier::external_body]
pub struct ExIoError(std::io::Error);

/// Why an operation on a plugin's parameters or state failed.
#[derive(Debug)]
pub enum Error {
    /// No parameter has this id.
    ParameterIdError(u32),
    /// A value outside a parameter's range.
    ParameterRangeError,
    /// State that cannot be read back.
    SerializationError,
    /// Reading or writing state failed.
    IoError(std::io::Error),
}

impl From<std::io::Error> for Error {
    fn from(error: std::io::Error) -> (converted: Self) {
        Error::IoError(error)
    }
}

impl vstd::std_specs::convert::FromSpecImpl<std::io::Error> for Error {
    open spec fn obeys_from_spec() -> bool {
        true
    }

    open spec fn from_spec(v: std::io::Error) -> Self {
        Error::IoError(v)
    }
}

} // verus!
