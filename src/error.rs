use vstd::prelude::*;

verus! {

/// The failures that every operation of the crate maps native signals into.
#[derive(PartialEq, Eq, Clone, Copy, Debug, Structural)]
pub enum WzError {
    /// The native context could not be initialised.
    InitError,
    /// An archive or its root could not be opened.
    OpenFailed,
    /// A path holds a byte that cannot cross the native boundary (NUL).
    InvalidPath,
    /// An accessor was used on a node of another type.
    TypeError,
    /// A string or image payload was missing or is not valid UTF-8.
    DecodeError,
}

impl WzError {
    /// A short human-readable description of the error.
    pub fn describe(&self) -> (r: &'static str)
        ensures
            r@ == self.spec_describe(),
    {
        match self {
            WzError::InitError => "native context initialisation failed",
            WzError::OpenFailed => "archive or root node could not be opened",
            WzError::InvalidPath => "path holds a NUL byte",
            WzError::TypeError => "node has another type",
            WzError::DecodeError => "payload is missing or not valid UTF-8",
        }
    }

    pub open spec fn spec_describe(&self) -> Seq<char> {
        match self {
            WzError::InitError => "native context initialisation failed"@,
            WzError::OpenFailed => "archive or root node could not be opened"@,
            WzError::InvalidPath => "path holds a NUL byte"@,
            WzError::TypeError => "node has another type"@,
            WzError::DecodeError => "payload is missing or not valid UTF-8"@,
        }
    }
}

} // verus!
