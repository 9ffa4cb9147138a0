//! The error taxonomy of the bridge layer. Every failure a caller can see is
//! one of these distinct, inspectable kinds; unknown option keys are not an
//! error at all and are reported as diagnostics beside a successful result.

use vstd::prelude::*;

verus! {

/// A failure of one call into the bridge layer.
#[derive(Debug)]
pub enum Error {
    /// Malformed input shape: a pixel-length mismatch, an unparseable format
    /// name, or a wrongly typed option value. Raised before any engine work.
    Validation(String),
    /// A referenced file does not exist; raised before any read is attempted.
    NotFound(String),
    /// The image codec could not parse or load the given image bytes.
    Io(String),
    /// The engine tried every applicable symbology and none decoded.
    Decode(String),
    /// The engine could not produce a matrix for the given data and format.
    Encode(String),
}

impl Error {
    /// A short, stable tag naming the kind of failure.
    pub fn kind(&self) -> (r: &'static str)
        ensures
            self matches Error::Validation(_) ==> r@ == "validation"@,
            self matches Error::NotFound(_) ==> r@ == "not_found"@,
            self matches Error::Io(_) ==> r@ == "io"@,
            self matches Error::Decode(_) ==> r@ == "decode"@,
            self matches Error::Encode(_) ==> r@ == "encode"@,
    {
        match self {
            Error::Validation(_) => "validation",
            Error::NotFound(_) => "not_found",
            Error::Io(_) => "io",
            Error::Decode(_) => "decode",
            Error::Encode(_) => "encode",
        }
    }

    /// The human-readable detail carried by this error.
    pub fn message(&self) -> (r: &String)
        ensures
            r@ == self.spec_message(),
    {
        match self {
            Error::Validation(m) => m,
            Error::NotFound(m) => m,
            Error::Io(m) => m,
            Error::Decode(m) => m,
            Error::Encode(m) => m,
        }
    }

    /// The detail string of this error, whatever its kind.
    pub open spec fn spec_message(self) -> Seq<char> {
        match self {
            Error::Validation(m) => m@,
            Error::NotFound(m) => m@,
            Error::Io(m) => m@,
            Error::Decode(m) => m@,
            Error::Encode(m) => m@,
        }
    }
}

} // verus!
