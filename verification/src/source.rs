use vstd::prelude::*;

use crate::error::TokenError;

verus! {

/// A capability that produces a token on demand.
///
/// A token source abstracts how a token is obtained or generated: from a
/// static secret, a local cache, or a remote server such as an OAuth2 or
/// metadata endpoint. Implementations must be safe to invoke concurrently
/// from several execution contexts through a shared handle, hence the
/// `Send + Sync` bounds; a source whose acquisition logic is not naturally
/// concurrency-safe must add its own locking or request coalescing.
///
/// Each implementation declares, through [`TokenSource::yields`] and
/// [`TokenSource::fails_with`], which successful tokens and which failure
/// causes it admits; [`TokenSource::token`] is then bound to return only
/// admitted outcomes. Calls are independent: no ordering, caching or
/// uniqueness is imposed by this contract.
pub trait TokenSource: Send + Sync {
    /// The token values this source can return.
    spec fn yields(&self, token: Seq<char>) -> bool;

    /// The failure causes this source can report.
    spec fn fails_with(&self, cause: Seq<char>) -> bool;

    /// Returns a valid token, or an error saying why none could be produced.
    fn token(&self) -> (r: Result<String, TokenError>)
        ensures
            match r {
                Ok(t) => self.yields(t@),
                Err(e) => self.fails_with(e@),
            },
    ;
}

/// The outcome of one [`TokenSource::token`] call, reduced to views: the
/// token on success, the failure cause on error.
pub open spec fn outcome_of(r: Result<String, TokenError>) -> Result<Seq<char>, Seq<char>> {
    match r {
        Ok(t) => Ok(t@),
        Err(e) => Err(e@),
    }
}

/// Whether `source` admits `outcome`: a successful token must be one the
/// source yields, a failure cause one the source fails with. Every result
/// of [`TokenSource::token`] satisfies this predicate.
pub open spec fn admits_outcome<S: TokenSource>(source: S, outcome: Result<Seq<char>, Seq<char>>) -> bool {
    match outcome {
        Ok(t) => source.yields(t),
        Err(c) => source.fails_with(c),
    }
}

/// A source that always succeeds with one configured token.
#[derive(Debug)]
pub struct StaticTokenSource {
    token: String,
}

impl StaticTokenSource {
    /// The configured token.
    pub closed spec fn spec_token(&self) -> Seq<char> {
        self.token@
    }

    /// Configures a source that returns `token` on every call.
    pub fn new(token: String) -> (s: StaticTokenSource)
        ensures
            s.spec_token() == token@,
    {
        StaticTokenSource { token }
    }
}

impl Clone for StaticTokenSource {
    /// Cloning keeps the configured token.
    fn clone(&self) -> (c: Self)
        ensures
            c.spec_token() == self.spec_token(),
    {
        StaticTokenSource { token: self.token.clone() }
    }
}

impl TokenSource for StaticTokenSource {
    open spec fn yields(&self, token: Seq<char>) -> bool {
        token == self.spec_token()
    }

    open spec fn fails_with(&self, cause: Seq<char>) -> bool {
        false
    }

    /// Succeeds with the configured token, on every call.
    fn token(&self) -> (r: Result<String, TokenError>)
        ensures
            (r matches Ok(t) && t@ == self.spec_token()),
    {
        Ok(self.token.clone())
    }
}

/// A source that always fails with one configured cause.
#[derive(Debug)]
pub struct FailingTokenSource {
    cause: String,
}

impl FailingTokenSource {
    /// The configured failure cause.
    pub closed spec fn spec_cause(&self) -> Seq<char> {
        self.cause@
    }

    /// Configures a source that fails with `cause` on every call.
    pub fn new(cause: String) -> (s: FailingTokenSource)
        ensures
            s.spec_cause() == cause@,
    {
        FailingTokenSource { cause }
    }
}

impl TokenSource for FailingTokenSource {
    open spec fn yields(&self, token: Seq<char>) -> bool {
        false
    }

    open spec fn fails_with(&self, cause: Seq<char>) -> bool {
        cause == self.spec_cause()
    }

    /// Fails with the configured cause, unmodified, on every call.
    fn token(&self) -> (r: Result<String, TokenError>)
        ensures
            (r matches Err(e) && e@ == self.spec_cause()),
    {
        Err(TokenError::new(self.cause.clone()))
    }
}

/// Law: a static source admits exactly one outcome — success with its
/// configured token. Whatever a call of [`TokenSource::token`] on a
/// [`StaticTokenSource`] returns, however often and from however many
/// callers, it is `Ok` and carries that token.
pub proof fn lemma_static_source_round_trip(
    source: StaticTokenSource,
    outcome: Result<Seq<char>, Seq<char>>,
)
    requires
        admits_outcome(source, outcome),
    ensures
        outcome == Ok::<Seq<char>, Seq<char>>(source.spec_token()),
{
}

/// Law: a failing source admits exactly one outcome — an error carrying its
/// configured cause, unmodified. Whatever a call of [`TokenSource::token`]
/// on a [`FailingTokenSource`] returns, it is `Err` and its message is that
/// cause.
pub proof fn lemma_failing_source_reports_cause(
    source: FailingTokenSource,
    outcome: Result<Seq<char>, Seq<char>>,
)
    requires
        admits_outcome(source, outcome),
    ensures
        outcome == Err::<Seq<char>, Seq<char>>(source.spec_cause()),
{
}

} // verus!
