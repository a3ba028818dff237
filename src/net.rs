use vstd::prelude::*;

verus! {

/// Failure of a provider's HTTP request.
#[derive(Debug)]
pub enum HttpError {
    Network(String),
    /// The body was not valid JSON.
    Parse(String),
    /// The JSON did not have the expected shape.
    Schema(String),
    Internal(String),
}

} // verus!
