//! The causal side of an error: an opaque source and the chain behind it.

use vstd::prelude::*;

verus! {

/// An opaque causal error: the user-facing message of one failure together
/// with the failure that caused it, if any.  A chain of sources is always
/// finite and acyclic: a source only ever owns causes that were fully built
/// before being attached.
pub struct Source {
    message: String,
    cause: Option<Box<Source>>,
}

/// The mathematical model of a causal chain: the messages of its links, the
/// outermost first.  A chain always has at least one link.
pub closed spec fn chain_of(s: Source) -> Seq<Seq<char>>
    decreases s,
{
    seq![s.message@] + (match s.cause {
        None => Seq::<Seq<char>>::empty(),
        Some(c) => chain_of(*c),
    })
}

impl View for Source {
    type V = Seq<Seq<char>>;

    open spec fn view(&self) -> Seq<Seq<char>> {
        chain_of(*self)
    }
}

impl Source {
    /// Builds a source from its own message and an optional cause, adding
    /// exactly one link in front of the cause's chain.
    pub fn new(message: String, cause: Option<Source>) -> (r: Source)
        ensures
            cause matches Some(c) ==> r@ == seq![message@] + c@,
            cause is None ==> r@ == seq![message@],
    {
        let boxed: Option<Box<Source>> = match cause {
            None => None,
            Some(c) => Some(Box::new(c)),
        };
        let r = Source { message, cause: boxed };
        proof {
            if r.cause is None {
                assert(r@ =~= seq![r.message@]);
            }
        }
        r
    }

    /// The message of the outermost link: the display form of this source.
    /// Deeper causes are reachable only through [`Source::source`].
    pub fn message(&self) -> (r: &str)
        ensures
            r@ == self@[0],
    {
        proof {
            assert(self@[0] == self.message@);
        }
        self.message.as_str()
    }

    /// One step of the causal-chain walk: the immediate cause, or `None` at
    /// the root.  Each step removes exactly the first link of the chain, so
    /// the walk terminates after exactly `self@.len()` steps.
    pub fn source(&self) -> (r: Option<&Source>)
        ensures
            r matches Some(c) ==> self@.len() > 1 && c@ == self@.skip(1),
            r is None ==> self@.len() == 1,
    {
        match &self.cause {
            None => None,
            Some(c) => {
                proof {
                    lemma_chain_nonempty(**c);
                    assert(self@.skip(1) =~= (**c)@);
                }
                Some(&**c)
            }
        }
    }

    /// Walks the whole causal chain and counts its links.
    pub fn chain_len(&self) -> (n: usize)
        requires
            self@.len() <= usize::MAX,
        ensures
            n == self@.len(),
    {
        let mut n: usize = 0;
        let mut cur: Option<&Source> = Some(self);
        while cur.is_some()
            invariant
                self@.len() <= usize::MAX,
                match cur {
                    Some(c) => n + c@.len() == self@.len(),
                    None => n == self@.len(),
                },
            decreases (match cur {
                Some(c) => c@.len(),
                None => 0nat,
            }),
        {
            let c = cur.unwrap();
            proof {
                lemma_chain_nonempty(*c);
            }
            n = n + 1;
            cur = c.source();
        }
        n
    }
}

/// Law: every causal chain is finite and holds at least one link, so the walk
/// through [`Source::source`], which removes exactly one link per step,
/// terminates after exactly as many steps as links were attached when the
/// chain was built.
pub proof fn lemma_chain_nonempty(s: Source)
    ensures
        s@.len() >= 1,
{
}

} // verus!
