//! Single-use continuations: owned handlers that turn the result of an
//! outside effect into an application message.
use vstd::prelude::*;

verus! {

/// Something that turns one result of type `R` into one message of type `M`,
/// consuming itself.
pub trait Resolve<R, M> {
    /// `m` is a message that resolving with `r` may produce.
    spec fn resolves(&self, r: R, m: M) -> bool;

    /// The handler may be resolved with any result.
    spec fn total(&self) -> bool;

    fn resolve(self: Box<Self>, r: R) -> (m: M)
        requires
            self.total(),
        ensures
            self.resolves(r, m),
    ;
}

/// A closure taken as a handler.
pub struct Lift<F> {
    pub f: F,
}

impl<R, M, F: FnOnce(R) -> M> Resolve<R, M> for Lift<F> {
    open spec fn resolves(&self, r: R, m: M) -> bool {
        call_ensures(self.f, (r,), m)
    }

    open spec fn total(&self) -> bool {
        forall|r: R| call_requires(self.f, (r,))
    }

    fn resolve(self: Box<Self>, r: R) -> (m: M) {
        (self.f)(r)
    }
}

/// A handler followed by a function applied to its message.
#[verifier::reject_recursive_types(R)]
#[verifier::reject_recursive_types(M)]
pub struct Then<R, M, G> {
    pub first: Continuation<R, M>,
    pub g: G,
}

impl<R, M, N, G: FnOnce(M) -> N> Resolve<R, N> for Then<R, M, G> {
    open spec fn resolves(&self, r: R, n: N) -> bool {
        exists|m: M| self.first.gives(r, m) && call_ensures(self.g, (m,), n)
    }

    open spec fn total(&self) -> bool {
        self.first.wf() && forall|m: M| call_requires(self.g, (m,))
    }

    fn resolve(self: Box<Self>, r: R) -> (n: N) {
        let Then { first, g } = *self;
        let m = first.resume(r);
        g(m)
    }
}

/// Relies on std's unsizing of `Box<T>` into `Box<dyn Resolve<R, M>>`:
/// calls through the box run `T`'s own impl, so the boxed handler keeps
/// `T`'s specification.
#[verifier::external_body]
fn erase<R, M, T: Resolve<R, M> + 'static>(t: T) -> (c: Continuation<R, M>)
    ensures
        forall|r: R, m: M| #[trigger] c.k.resolves(r, m) == t.resolves(r, m),
        c.k.total() == t.total(),
{
    Continuation { k: Box::new(t) }
}

/// The results each message may come from: `r` may give `m`.
pub open spec fn then_rel<R, M, N, G: FnOnce(M) -> N>(
    rel: spec_fn(R, M) -> bool,
    g: G,
) -> spec_fn(R, N) -> bool {
    |r: R, n: N| exists|m: M| rel(r, m) && call_ensures(g, (m,), n)
}

/// A single-use handler from a result `R` to a message `M`. It is moved
/// into the runtime and resumed once; it cannot be copied.
#[verifier::reject_recursive_types(R)]
#[verifier::reject_recursive_types(M)]
pub struct Continuation<R, M> {
    k: Box<dyn Resolve<R, M>>,
}

impl<R, M> Continuation<R, M> {
    /// `m` is a message that resuming with `r` may produce.
    pub closed spec fn gives(&self, r: R, m: M) -> bool {
        self.k.resolves(r, m)
    }

    /// What the handler does, as a relation from results to messages.
    pub open spec fn rel(&self) -> spec_fn(R, M) -> bool {
        |r: R, m: M| self.gives(r, m)
    }

    /// The continuation can be resumed with any result.
    pub closed spec fn wf(&self) -> bool {
        self.k.total()
    }

    /// `self` gives exactly what `src` followed by `g` gives.
    pub open spec fn mapped_from<M0, G: FnOnce(M0) -> M>(&self, src: Continuation<R, M0>, g: G) -> bool {
        forall|r: R, m: M| #[trigger] self.gives(r, m) == then_rel(src.rel(), g)(r, m)
    }

    /// Both continuations give the same messages for the same results.
    pub open spec fn same_behaviour(&self, other: Continuation<R, M>) -> bool {
        forall|r: R, m: M| #[trigger] self.gives(r, m) == other.gives(r, m)
    }

    /// Takes a closure as a continuation.
    pub fn new<F: FnOnce(R) -> M + 'static>(f: F) -> (c: Self)
        where R: 'static, M: 'static,
        requires
            forall|r: R| call_requires(f, (r,)),
        ensures
            c.wf(),
            forall|r: R, m: M| c.gives(r, m) == call_ensures(f, (r,), m),
    {
        erase(Lift { f })
    }

    /// Resumes the continuation with the result of the effect. It is
    /// consumed, so it runs at most once.
    pub fn resume(self, r: R) -> (m: M)
        requires
            self.wf(),
        ensures
            self.gives(r, m),
    {
        self.k.resolve(r)
    }

    /// Composes `g` after this continuation: the new one gives `g(m)` where
    /// this one gives `m`.
    pub fn map<N, G: FnOnce(M) -> N + 'static>(self, g: G) -> (c: Continuation<R, N>)
        where R: 'static, M: 'static, N: 'static,
        requires
            self.wf(),
            forall|m: M| call_requires(g, (m,)),
        ensures
            c.wf(),
            c.mapped_from(self, g),
    {
        let ghost s = self;
        let c = erase(Then { first: self, g });
        assert forall|r: R, n: N| c.gives(r, n) == then_rel(s.rel(), g)(r, n) by {
            if c.gives(r, n) {
                let m = choose|m: M| s.gives(r, m) && call_ensures(g, (m,), n);
                assert(s.rel()(r, m));
            }
            if then_rel(s.rel(), g)(r, n) {
                let m = choose|m: M| s.rel()(r, m) && call_ensures(g, (m,), n);
                assert(s.gives(r, m));
            }
        }
        c
    }
}

/// Mapping `f` and then `g` over a continuation gives the same messages as
/// mapping once with their composition `h`, which gives `g(f(a))` for `a`.
pub proof fn lemma_map_composition<R, A, B, C, F: FnOnce(A) -> B, G: FnOnce(B) -> C, H: FnOnce(A) -> C>(
    k: Continuation<R, A>,
    f: F,
    g: G,
    h: H,
    kf: Continuation<R, B>,
    kfg: Continuation<R, C>,
    kh: Continuation<R, C>,
)
    requires
        forall|a: A, c: C|
            #[trigger] call_ensures(h, (a,), c) <==> exists|b: B|
                call_ensures(f, (a,), b) && call_ensures(g, (b,), c),
        kf.mapped_from(k, f),
        kfg.mapped_from(kf, g),
        kh.mapped_from(k, h),
    ensures
        kfg.same_behaviour(kh),
{
    assert forall|r: R, c: C| #[trigger] kfg.gives(r, c) == kh.gives(r, c) by {
        assert(kfg.gives(r, c) == then_rel(kf.rel(), g)(r, c));
        assert(kh.gives(r, c) == then_rel(k.rel(), h)(r, c));
        if kfg.gives(r, c) {
            let b = choose|b: B| kf.rel()(r, b) && call_ensures(g, (b,), c);
            assert(kf.gives(r, b) == then_rel(k.rel(), f)(r, b));
            let a = choose|a: A| k.rel()(r, a) && call_ensures(f, (a,), b);
            assert(call_ensures(h, (a,), c));
            assert(then_rel(k.rel(), h)(r, c));
        }
        if kh.gives(r, c) {
            let a = choose|a: A| k.rel()(r, a) && call_ensures(h, (a,), c);
            let b = choose|b: B| call_ensures(f, (a,), b) && call_ensures(g, (b,), c);
            assert(kf.gives(r, b) == then_rel(k.rel(), f)(r, b));
            assert(kf.rel()(r, b));
            assert(then_rel(kf.rel(), g)(r, c));
        }
    }
}

/// Mapping the identity over a continuation leaves the messages it gives
/// unchanged.
pub proof fn lemma_map_identity<R, M, I: FnOnce(M) -> M>(k: Continuation<R, M>, id: I, ki: Continuation<R, M>)
    requires
        forall|m: M, n: M| #[trigger] call_ensures(id, (m,), n) <==> n == m,
        ki.mapped_from(k, id),
    ensures
        ki.same_behaviour(k),
{
    assert forall|r: R, m: M| #[trigger] ki.gives(r, m) == k.gives(r, m) by {
        assert(ki.gives(r, m) == then_rel(k.rel(), id)(r, m));
        if k.gives(r, m) {
            assert(call_ensures(id, (m,), m));
            assert(k.rel()(r, m));
        }
    }
}

/// Two continuations mapped from the same one by the same function give the
/// same messages.
pub proof fn lemma_mapped_same<R, M0, M, G: FnOnce(M0) -> M>(
    k: Continuation<R, M0>,
    g: G,
    x: Continuation<R, M>,
    y: Continuation<R, M>,
)
    requires
        x.mapped_from(k, g),
        y.mapped_from(k, g),
    ensures
        x.same_behaviour(y),
{
    assert forall|r: R, m: M| #[trigger] x.gives(r, m) == y.gives(r, m) by {
        assert(x.gives(r, m) == then_rel(k.rel(), g)(r, m));
        assert(y.gives(r, m) == then_rel(k.rel(), g)(r, m));
    }
}

} // verus!
