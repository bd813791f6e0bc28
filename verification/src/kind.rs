//! The capability contract that a caller-supplied error category must meet.

use vstd::prelude::*;
use crate::source::Source;

verus! {

/// A caller-defined classification of failures.  An implementing type states
/// what its user-facing display form is ([`Kind::display_spec`]), produces
/// that form ([`Kind::to_display`]), and can be turned into an opaque causal
/// [`Source`], which lets a kind stand as the cause of a higher-level error.
pub trait Kind: Sized {
    /// The display form of this kind, as a mathematical value.  The default
    /// is an arbitrary sequence that nothing can be proved about, so an
    /// implementer who wants to verify [`Kind::to_display`] states the real
    /// form here.
    open spec fn display_spec(&self) -> Seq<char> {
        vstd::pervasive::arbitrary()
    }

    /// Renders the display form of this kind.
    fn to_display(&self) -> (r: String)
        ensures
            r@ == self.display_spec(),
    ;

    /// Turns this kind into a root causal source: a chain of exactly one
    /// link, whose message is the kind's display form.
    fn to_source(self) -> (r: Source)
        ensures
            r@ == seq![self.display_spec()],
    {
        let message = self.to_display();
        let r = Source::new(message, None);
        r
    }
}

} // verus!
