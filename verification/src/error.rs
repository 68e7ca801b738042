//! What can go wrong.

use vstd::prelude::*;

verus! {

/// The two ways in which a digest is not produced.
#[derive(Debug)]
pub enum HashError {
    /// The name given stands for no supported algorithm; it is kept as given.
    UnknownAlgorithm(String),
    /// Reading the source failed; the cause is kept as it came.
    SourceReadFailure(std::io::Error),
}

impl HashError {
    /// A line of text that says what went wrong: for an unknown name
    /// `unknown algorithm: ` and the name, for a failed read what the
    /// cause says of itself.
    pub fn message(&self) -> (text: String)
        ensures
            self matches HashError::UnknownAlgorithm(name) ==> text@ == "unknown algorithm: "@
                + name@,
            self matches HashError::SourceReadFailure(cause)
                ==> vstd::string::to_string_from_display_ensures::<std::io::Error>(&cause, text),
    {
        match self {
            HashError::UnknownAlgorithm(name) => "unknown algorithm: ".to_owned().concat(
                name.as_str(),
            ),
            HashError::SourceReadFailure(cause) => cause.to_string(),
        }
    }
}

} // verus!
