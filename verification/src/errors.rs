use vstd::prelude::*;

verus! {

/// The error returned when the remote API answers with a syntactically
/// valid but empty result set: a legitimate empty search, distinct from
/// a malformed response.
#[derive(Debug, Clone)]
pub struct NoResultError {
    pub details: String,
}

impl NoResultError {
    pub fn new(msg: &str) -> (e: NoResultError)
        ensures
            e.details@ == msg@,
    {
        NoResultError { details: msg.to_owned() }
    }

    /// The human-readable description carried by the error.
    pub fn details(&self) -> (d: &str)
        ensures
            d@ == self.details@,
    {
        self.details.as_str()
    }
}

/// The error returned when a required configuration key is absent: it
/// carries the name of the first missing key.
#[derive(Debug, Clone)]
pub struct ConfigError {
    pub missing_key: String,
}

} // verus!
