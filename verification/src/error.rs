use vstd::prelude::*;

verus! {

/// A failure to produce a token.
///
/// The token-source abstraction fixes no taxonomy of acquisition failures:
/// network trouble, rejected credentials and malformed upstream responses
/// all surface alike, as an error carrying a human-readable cause chosen by
/// the concrete source. Callers that need finer distinctions must rely on
/// the causes a concrete source documents.
#[derive(Debug)]
pub struct TokenError {
    cause: String,
}

impl View for TokenError {
    type V = Seq<char>;

    closed spec fn view(&self) -> Seq<char> {
        self.cause@
    }
}

impl TokenError {
    /// Wraps a human-readable cause.
    pub fn new(cause: String) -> (e: TokenError)
        ensures
            e@ == cause@,
    {
        TokenError { cause }
    }

    /// The cause, exactly as it was supplied to [`TokenError::new`].
    pub fn message(&self) -> (m: &str)
        ensures
            m@ == self@,
    {
        self.cause.as_str()
    }
}

} // verus!
