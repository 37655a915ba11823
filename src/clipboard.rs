//! Requests to the system clipboard.
use vstd::prelude::*;

use crate::continuation::Continuation;

verus! {

/// A request to read or write the clipboard.
#[verifier::reject_recursive_types(T)]
pub enum Action<T> {
    /// Read the clipboard; the continuation receives its text, or `None`
    /// when it holds no text.
    Read(Continuation<Option<String>, T>),
    /// Replace the clipboard's contents with the text.
    Write(String),
}

impl<T> Action<T> {
    pub open spec fn wf(&self) -> bool {
        match self {
            Action::Read(k) => k.wf(),
            Action::Write(_) => true,
        }
    }

    /// `self` is what mapping `f` over `src` gives.
    pub open spec fn mapped_from<T0, F: FnOnce(T0) -> T>(&self, src: Action<T0>, f: F) -> bool {
        match (self, src) {
            (Action::Read(k), Action::Read(k0)) => k.mapped_from(k0, f),
            (Action::Write(s), Action::Write(s0)) => *s == s0,
            _ => false,
        }
    }

    /// Both requests do the same thing and produce the same messages.
    pub open spec fn same_behaviour(&self, other: Action<T>) -> bool {
        match (self, other) {
            (Action::Read(k), Action::Read(k0)) => k.same_behaviour(k0),
            (Action::Write(s), Action::Write(s0)) => *s == s0,
            _ => false,
        }
    }

    /// Applies `f` to the message that a read produces; a write is kept.
    pub fn map<A, F: FnOnce(T) -> A + 'static>(self, f: F) -> (r: Action<A>)
        where T: 'static, A: 'static,
        requires
            self.wf(),
            forall|t: T| call_requires(f, (t,)),
        ensures
            r.wf(),
            r.mapped_from(self, f),
    {
        match self {
            Action::Read(k) => Action::Read(k.map(f)),
            Action::Write(s) => Action::Write(s),
        }
    }
}

} // verus!
