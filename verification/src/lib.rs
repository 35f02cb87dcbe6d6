//! Common traits and structs for token sources.
//!
//! A token source is anything capable of producing an opaque credential
//! string ("token") on demand: a static secret, a local cache, or a remote
//! identity server. This crate defines the seam between callers that need a
//! token and the many possible mechanisms that can produce one:
//!
//! - [`TokenSource`]: a capability that, given nothing, produces a token or
//!   reports a failure;
//! - [`TokenSourceProvider`]: a capability that owns a token source and hands
//!   out shared handles to it;
//! - [`NoopTokenSourceProvider`]: a placeholder provider that aborts loudly
//!   if it is ever used, guarding slots where a real provider must be wired
//!   in.
//!
//! The crate implements no acquisition mechanism itself; concrete sources
//! are supplied by its users. Two reference sources are included:
//! [`StaticTokenSource`], which always succeeds with one configured token,
//! and [`FailingTokenSource`], which always fails with one configured cause.

mod error;
mod provider;
mod source;

pub use error::TokenError;
pub use provider::NoopTokenSource;
pub use provider::NoopTokenSourceProvider;
pub use provider::StaticTokenSourceProvider;
pub use provider::TokenSourceProvider;
pub use provider::lemma_static_provider_round_trip;
pub use source::FailingTokenSource;
pub use source::StaticTokenSource;
pub use source::TokenSource;
pub use source::admits_outcome;
pub use source::lemma_failing_source_reports_cause;
pub use source::lemma_static_source_round_trip;
pub use source::outcome_of;
