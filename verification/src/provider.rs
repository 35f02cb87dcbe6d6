use vstd::prelude::*;

use std::sync::Arc;

use crate::error::TokenError;
use crate::source::StaticTokenSource;
use crate::source::TokenSource;
use crate::source::admits_outcome;

verus! {

/// A capability that owns one logical token source and hands out shared
/// handles to it.
///
/// The indirection separates construction and configuration of a concrete
/// mechanism, done once, from the many call sites that later need a token,
/// and lets one source instance — and any caching or connection reuse it
/// performs — be shared by unrelated callers without coordinated ownership.
///
/// [`TokenSourceProvider::token_source`] is a total accessor: it is not
/// expected to fail, so a construction step that can fail must run when the
/// provider is built, not when the source is asked for. Each implementation
/// declares through [`TokenSourceProvider::provides`] which sources it can
/// hand out; every returned handle points at such a source. A handle is
/// reference-counted: it stays valid while any holder keeps it, even after
/// the provider itself is dropped.
pub trait TokenSourceProvider: Send + Sync {
    /// The concrete source this provider hands out.
    type Source: TokenSource;

    /// The sources this provider can hand out.
    spec fn provides(&self, source: Self::Source) -> bool;

    /// Returns a shared handle to the provider's token source.
    fn token_source(&self) -> (source: Arc<Self::Source>)
        ensures
            self.provides(*source),
    ;
}

/// A provider wrapping one static source.
///
/// All construction happens in [`StaticTokenSourceProvider::new`], so the
/// accessor is total; every handle it returns carries the configured token.
#[derive(Debug)]
pub struct StaticTokenSourceProvider {
    source: StaticTokenSource,
}

impl StaticTokenSourceProvider {
    /// The token of the wrapped source.
    pub closed spec fn spec_token(&self) -> Seq<char> {
        self.source.spec_token()
    }

    /// Wraps `source`.
    pub fn new(source: StaticTokenSource) -> (p: StaticTokenSourceProvider)
        ensures
            p.spec_token() == source.spec_token(),
    {
        StaticTokenSourceProvider { source }
    }
}

impl TokenSourceProvider for StaticTokenSourceProvider {
    type Source = StaticTokenSource;

    /// Exactly the sources that carry the configured token.
    open spec fn provides(&self, source: StaticTokenSource) -> bool {
        source.spec_token() == self.spec_token()
    }

    fn token_source(&self) -> (source: Arc<StaticTokenSource>) {
        Arc::new(self.source.clone())
    }
}

/// Aborts because no real token source provider is configured.
///
/// Relies on `Option::expect`: called on `None` it panics with the given
/// message and never returns, so nothing is stated about a result.
#[verifier::external_body]
fn abort_unconfigured<T>() -> (t: T) {
    None.expect(
        "This is dummy token source provider. Please use any crate providing real implementation.",
    )
}

/// The source type named by [`NoopTokenSourceProvider`].
///
/// No value of this type can be obtained: the only provider that names it
/// aborts instead of returning a handle, and the type has no constructor.
/// Were a call of [`TokenSource::token`] ever reached on it, it too would
/// abort rather than return.
#[derive(Debug)]
pub struct NoopTokenSource {
    reserved: (),
}

impl TokenSource for NoopTokenSource {
    /// Vacuous: the call below never returns, so no outcome is promised.
    open spec fn yields(&self, token: Seq<char>) -> bool {
        true
    }

    /// Vacuous: the call below never returns, so no outcome is promised.
    open spec fn fails_with(&self, cause: Seq<char>) -> bool {
        true
    }

    /// Aborts the calling thread of control with a diagnostic message.
    fn token(&self) -> (r: Result<String, TokenError>) {
        abort_unconfigured()
    }
}

/// A noop token source provider.
///
/// A placeholder for slots where some provider must be configured before a
/// real one is wired in: use it as a fallback or dummy provider. Asking it
/// for a source is a configuration mistake, and it is made loud rather than
/// recoverable — [`TokenSourceProvider::token_source`] aborts the calling
/// thread of control with a diagnostic message instead of returning a handle
/// or an error value.
#[derive(Debug)]
pub struct NoopTokenSourceProvider {}

impl TokenSourceProvider for NoopTokenSourceProvider {
    type Source = NoopTokenSource;

    /// Vacuous: the accessor below never returns a handle.
    open spec fn provides(&self, source: NoopTokenSource) -> bool {
        true
    }

    /// Aborts the calling thread of control with a diagnostic message.
    fn token_source(&self) -> (source: Arc<NoopTokenSource>) {
        abort_unconfigured()
    }
}

/// Law: every handle a static provider hands out points at a source that
/// admits exactly one outcome — success with the provider's configured
/// token. Obtaining a source from the provider and asking it for a token
/// therefore yields that token, on every call.
pub proof fn lemma_static_provider_round_trip(
    provider: StaticTokenSourceProvider,
    source: StaticTokenSource,
    outcome: Result<Seq<char>, Seq<char>>,
)
    requires
        provider.provides(source),
        admits_outcome(source, outcome),
    ensures
        outcome == Ok::<Seq<char>, Seq<char>>(provider.spec_token()),
{
}

} // verus!
