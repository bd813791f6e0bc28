//! The context of one failure: a kind, an optional cause, a stack snapshot.

use vstd::prelude::*;
use vstd::string::StringExecFns;
use crate::kind::Kind;
use crate::source::Source;
use crate::trace::capture_trace;

verus! {

/// Binds a classification value to an optional causal [`Source`] and a stack
/// snapshot taken at construction time.  A context is immutable once built:
/// there are no transitions, only construction and destruction.
pub struct Context<K: Kind> {
    /// Kind of error.
    kind: K,

    /// Source of the error; absent at a root cause.
    source: Option<Source>,

    /// Snapshot of the call stack where the error occurred.
    trace: Option<backtrace::Backtrace>,
}

impl<K: Kind> Context<K> {
    /// The stored kind.
    pub closed spec fn kind_spec(&self) -> K {
        self.kind
    }

    /// The stored causal source, if any.
    pub closed spec fn source_spec(&self) -> Option<Source> {
        self.source
    }

    /// The stored stack snapshot, if any.
    pub closed spec fn trace_spec(&self) -> Option<backtrace::Backtrace> {
        self.trace
    }

    /// The causal chain behind this context: the messages of the source's
    /// links, outermost first, or empty at a root cause.
    pub open spec fn chain_spec(&self) -> Seq<Seq<char>> {
        match self.source_spec() {
            None => Seq::<Seq<char>>::empty(),
            Some(s) => s@,
        }
    }

    /// The display form: the kind alone at a root cause, or the kind, a
    /// separator, and the immediate source's message.  Deeper causes never
    /// appear here; they are reachable only through the chain walk.
    pub open spec fn display_spec(&self) -> Seq<char> {
        match self.source_spec() {
            None => self.kind_spec().display_spec(),
            Some(s) => self.kind_spec().display_spec() + seq![':', ' '] + s@[0],
        }
    }

    /// Creates a new error context.  Construction cannot fail; the stack
    /// snapshot is captured synchronously, here and nowhere else.
    pub fn new(kind: K, source: Option<Source>) -> (r: Self)
        ensures
            r.kind_spec() == kind,
            r.source_spec() == source,
            r.trace_spec() is Some,
    {
        Context { kind, source, trace: Some(capture_trace()) }
    }

    /// Creates a rootless context from a bare kind: the source defaults to
    /// absent.
    pub fn from_kind(kind: K) -> (r: Self)
        ensures
            r.kind_spec() == kind,
            r.source_spec() is None,
            r.trace_spec() is Some,
    {
        Self::new(kind, None)
    }

    /// Gets the kind of error.
    pub fn kind(&self) -> (r: &K)
        ensures
            *r == self.kind_spec(),
    {
        &self.kind
    }

    /// Gets the backtrace associated with this error (if available).
    pub fn backtrace(&self) -> (r: Option<&backtrace::Backtrace>)
        ensures
            r matches Some(t) ==> self.trace_spec() == Some(*t),
            r is None ==> self.trace_spec() is None,
    {
        self.trace.as_ref()
    }

    /// Causal-chain introspection: the immediate source, or `None` at the
    /// root.  Deeper causes are reached by walking the returned source.
    pub fn source(&self) -> (r: Option<&Source>)
        ensures
            r matches Some(s) ==> self.source_spec() == Some(*s),
            r is None ==> self.source_spec() is None,
    {
        self.source.as_ref()
    }

    /// Renders the display form stated by [`Context::display_spec`].
    pub fn display_string(&self) -> (r: String)
        ensures
            r@ == self.display_spec(),
    {
        let mut out = self.kind.to_display();
        match &self.source {
            None => {}
            Some(s) => {
                out.append(": ");
                out.append(s.message());
                proof {
                    reveal_strlit(": ");
                    assert(": "@ =~= seq![':', ' ']);
                }
            }
        }
        out
    }

    /// Walks the whole causal chain and counts its links.
    pub fn chain_len(&self) -> (n: usize)
        requires
            self.chain_spec().len() <= usize::MAX,
        ensures
            n == self.chain_spec().len(),
    {
        match &self.source {
            None => 0,
            Some(s) => s.chain_len(),
        }
    }
}

/// Law: a context without a source displays as its kind alone, with no
/// trailing cause text.
pub proof fn lemma_display_no_source<K: Kind>(c: Context<K>)
    requires
        c.source_spec() is None,
    ensures
        c.display_spec() == c.kind_spec().display_spec(),
{
}

/// Law: a context with a source displays as its kind, a separating colon and
/// space, and the source's own message — never the rest of the chain.
pub proof fn lemma_display_with_source<K: Kind>(c: Context<K>, s: Source)
    requires
        c.source_spec() == Some(s),
    ensures
        c.display_spec() == c.kind_spec().display_spec() + seq![':', ' '] + s@[0],
{
}

} // verus!
