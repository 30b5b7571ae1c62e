use vstd::prelude::*;

verus! {

/// The single recoverable failure of the conversion engine: the input text
/// could not be read as a base-10 signed integer.
#[derive(Clone, Copy, Debug, PartialEq, Eq, Structural)]
pub enum ConversionError {
    InvalidInputError,
}

impl ConversionError {
    /// A human-readable message, for a caller that displays the failure.
    pub fn message(&self) -> (m: String)
        ensures
            m@ == "Input is not a number"@,
    {
        "Input is not a number".to_owned()
    }
}

} // verus!
