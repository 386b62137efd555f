use vstd::prelude::*;

verus! {

/// Everything that can go wrong while discovering and resolving streams.
#[derive(Clone, Copy, Debug, PartialEq, Eq, Structural)]
pub enum StreamError {
    /// The endpoint was unreachable or answered with a non-success status.
    NetworkError,
    /// The endpoint answered, but the body could not be understood.
    ParseError,
    /// The schedule item exists but no feeds have been published yet.
    NoStreamsAvailable,
    /// The requested quality tier is absent from the fetched master manifest.
    QualityNotFound,
    /// A user selection was out of range; recovered locally by re-prompting.
    InvalidSelection,
}

impl StreamError {
    /// A short human-readable account of the error.
    pub fn describe(&self) -> (r: &'static str)
        ensures
            *self == StreamError::NetworkError ==> r@ == "network error"@,
            *self == StreamError::ParseError ==> r@ == "malformed response"@,
            *self == StreamError::NoStreamsAvailable ==> r@ == "no streams available yet"@,
            *self == StreamError::QualityNotFound ==> r@ == "quality not found in manifest"@,
            *self == StreamError::InvalidSelection ==> r@ == "invalid selection"@,
    {
        match self {
            StreamError::NetworkError => "network error",
            StreamError::ParseError => "malformed response",
            StreamError::NoStreamsAvailable => "no streams available yet",
            StreamError::QualityNotFound => "quality not found in manifest",
            StreamError::InvalidSelection => "invalid selection",
        }
    }
}

} // verus!
