//! A generic error-representation library.
//!
//! A library defines a small set of error categories (a `Kind` type) and gets
//! a uniform error type in return: a [`Context`] pairs a kind with an optional
//! causal [`Source`] and an optional stack snapshot, and an [`Error`] wraps a
//! `Context` behind a single allocation so that propagating it costs one
//! pointer copy, however large the kind or the causal chain.

mod context;
mod error;
mod kind;
mod source;
mod trace;

pub use context::Context;
pub use context::lemma_display_no_source;
pub use context::lemma_display_with_source;
pub use error::Error;
pub use error::lemma_delegation_exact;
pub use error::lemma_kind_only_display;
pub use kind::Kind;
pub use source::Source;
pub use source::lemma_chain_nonempty;
