//! Error type which is generic around a `Kind`.

use vstd::prelude::*;
use crate::context::Context;
use crate::kind::Kind;
use crate::source::Source;

verus! {

/// Error type which is generic around a `Kind`.
///
/// A boxed wrapper around a [`Context`]: an `Error` owns exactly one
/// heap-allocated context, so returning or moving it is a fixed-size
/// operation — one owning handle is copied, never the kind or the chain.
/// Every observation on the context is available here unchanged.
pub struct Error<K: Kind> {
    context: Box<Context<K>>,
}

impl<K: Kind> Error<K> {
    /// The one context this error owns.
    pub closed spec fn context_spec(&self) -> Context<K> {
        *self.context
    }

    /// The kind of the owned context.
    pub open spec fn kind_spec(&self) -> K {
        self.context_spec().kind_spec()
    }

    /// The causal source of the owned context.
    pub open spec fn source_spec(&self) -> Option<Source> {
        self.context_spec().source_spec()
    }

    /// The stack snapshot of the owned context.
    pub open spec fn trace_spec(&self) -> Option<backtrace::Backtrace> {
        self.context_spec().trace_spec()
    }

    /// The causal chain of the owned context.
    pub open spec fn chain_spec(&self) -> Seq<Seq<char>> {
        self.context_spec().chain_spec()
    }

    /// The display form of the owned context.
    pub open spec fn display_spec(&self) -> Seq<char> {
        self.context_spec().display_spec()
    }

    /// Wraps a context: a single allocation that moves the context in
    /// unchanged — no copy of the kind or the source.
    pub fn from_context(context: Context<K>) -> (r: Self)
        ensures
            r.context_spec() == context,
    {
        Error { context: Box::new(context) }
    }

    /// Builds an error directly from a bare kind: a rootless context is
    /// built and wrapped in one step.
    pub fn from_kind(kind: K) -> (r: Self)
        ensures
            r.kind_spec() == kind,
            r.source_spec() is None,
            r.trace_spec() is Some,
    {
        Self::from_context(Context::from_kind(kind))
    }

    /// Borrows the owned context.
    pub fn context(&self) -> (r: &Context<K>)
        ensures
            *r == self.context_spec(),
    {
        &*self.context
    }

    /// Gets the kind of error, straight from the owned context.
    pub fn kind(&self) -> (r: &K)
        ensures
            *r == self.kind_spec(),
    {
        self.context().kind()
    }

    /// Gets the backtrace associated with this error (if available),
    /// straight from the owned context.
    pub fn backtrace(&self) -> (r: Option<&backtrace::Backtrace>)
        ensures
            r matches Some(t) ==> self.trace_spec() == Some(*t),
            r is None ==> self.trace_spec() is None,
    {
        self.context().backtrace()
    }

    /// Causal-chain introspection, straight from the owned context.
    pub fn source(&self) -> (r: Option<&Source>)
        ensures
            r matches Some(s) ==> self.source_spec() == Some(*s),
            r is None ==> self.source_spec() is None,
    {
        self.context().source()
    }

    /// Renders the display form, straight from the owned context.
    pub fn display_string(&self) -> (r: String)
        ensures
            r@ == self.display_spec(),
    {
        self.context().display_string()
    }

    /// Walks the whole causal chain and counts its links.
    pub fn chain_len(&self) -> (n: usize)
        requires
            self.chain_spec().len() <= usize::MAX,
        ensures
            n == self.chain_spec().len(),
    {
        self.context().chain_len()
    }
}

/// Law: wrapping a context into an error loses nothing — the kind, source,
/// trace, chain and display form read through the error are identical to
/// those of the context it was built from.
pub proof fn lemma_delegation_exact<K: Kind>(e: Error<K>, c: Context<K>)
    requires
        e.context_spec() == c,
    ensures
        e.kind_spec() == c.kind_spec(),
        e.source_spec() == c.source_spec(),
        e.trace_spec() == c.trace_spec(),
        e.chain_spec() == c.chain_spec(),
        e.display_spec() == c.display_spec(),
{
}

/// Law: an error built from a bare kind displays as that kind alone, with no
/// trailing cause text.
pub proof fn lemma_kind_only_display<K: Kind>(e: Error<K>)
    requires
        e.source_spec() is None,
    ensures
        e.display_spec() == e.kind_spec().display_spec(),
{
}

} // verus!
