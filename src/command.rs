//! Commands: the ordered batch of requests that one update returns.
use vstd::prelude::*;

pub mod action;

use self::action::{lemma_mapped_same_request, Action};

verus! {

/// The requests of a sequence of commands, one command after the other.
pub open spec fn joined<T>(cs: Seq<Command<T>>) -> Seq<Action<T>>
    decreases cs.len(),
{
    if cs.len() == 0 {
        Seq::empty()
    } else {
        joined(cs.drop_last()) + cs.last()@
    }
}

/// A batch of requests, in order. The order is kept, but the runtime may
/// resolve them in any order.
#[verifier::reject_recursive_types(T)]
pub struct Command<T> {
    actions: Vec<Action<T>>,
}

impl<T> View for Command<T> {
    type V = Seq<Action<T>>;

    closed spec fn view(&self) -> Seq<Action<T>> {
        self.actions@
    }
}

impl<T> Command<T> {
    /// Every request in the batch is well formed.
    pub open spec fn wf(&self) -> bool {
        forall|i: int| 0 <= i < self@.len() ==> #[trigger] self@[i].wf()
    }

    /// `self` holds, in order, the requests of `src` mapped by `f`.
    pub open spec fn mapped_from<T0, F: FnOnce(T0) -> T>(&self, src: Command<T0>, f: F) -> bool {
        &&& self@.len() == src@.len()
        &&& forall|i: int| 0 <= i < src@.len() ==> #[trigger] self@[i].mapped_from(src@[i], f)
    }

    /// A command with no requests.
    pub fn none() -> (r: Self)
        ensures
            r@ == Seq::<Action<T>>::empty(),
    {
        Command { actions: Vec::new() }
    }

    /// A command with one request.
    pub fn single(action: Action<T>) -> (r: Self)
        ensures
            r@ == seq![action],
    {
        let mut actions = Vec::new();
        actions.push(action);
        Command { actions }
    }

    /// The requests of all the commands, one command after the other.
    pub fn batch(commands: Vec<Command<T>>) -> (r: Self)
        ensures
            r@ == joined(commands@),
    {
        let ghost all = commands@;
        let mut rest = commands;
        let mut actions: Vec<Action<T>> = Vec::new();
        let n = rest.len();
        let mut i: usize = 0;
        while i < n
            invariant
                n == all.len(),
                i <= n,
                rest@ == all.subrange(i as int, n as int),
                actions@ == joined(all.subrange(0, i as int)),
            decreases n - i,
        {
            let c = rest.remove(0);
            let mut more = c.actions;
            actions.append(&mut more);
            proof {
                assert(all.subrange(0, i + 1).drop_last() =~= all.subrange(0, i as int));
                assert(rest@ =~= all.subrange(i + 1, n as int));
            }
            i = i + 1;
        }
        assert(all.subrange(0, n as int) =~= all);
        Command { actions }
    }

    /// Applies `f` to the message of every request, keeping their order.
    ///
    /// Every request receives a copy of `f`, so `f` must be `Copy`: a copy
    /// is the same value, and so it behaves the same. Verus knows nothing of
    /// what a `Clone` of a closure does.
    pub fn map<A, F: Fn(T) -> A + Copy + 'static>(self, f: F) -> (r: Command<A>)
        where T: 'static, A: 'static,
        requires
            self.wf(),
            forall|t: T| call_requires(f, (t,)),
        ensures
            r.wf(),
            r.mapped_from(self, f),
    {
        let ghost src = self@;
        let mut rest = self.actions;
        let mut out: Vec<Action<A>> = Vec::new();
        let n = rest.len();
        let mut i: usize = 0;
        while i < n
            invariant
                n == src.len(),
                i <= n,
                rest@ == src.subrange(i as int, n as int),
                out@.len() == i,
                forall|j: int| 0 <= j < src.len() ==> #[trigger] src[j].wf(),
                forall|t: T| call_requires(f, (t,)),
                forall|j: int| 0 <= j < i ==> #[trigger] out@[j].mapped_from(src[j], f),
                forall|j: int| 0 <= j < i ==> #[trigger] out@[j].wf(),
            decreases n - i,
        {
            let a = rest.remove(0);
            assert(a == src[i as int]);
            out.push(a.map(f));
            proof {
                assert(rest@ =~= src.subrange(i + 1, n as int));
            }
            i = i + 1;
        }
        Command { actions: out }
    }

    /// The requests, in order.
    pub fn actions(self) -> (r: Vec<Action<T>>)
        ensures
            r@ == self@,
    {
        self.actions
    }
}

/// Batching two commands gives the requests of the first, in order, then
/// those of the second.
pub proof fn lemma_batch_order<T>(c1: Command<T>, c2: Command<T>)
    ensures
        joined(seq![c1, c2]) == c1@ + c2@,
{
    let cs = seq![c1, c2];
    let one = seq![c1];
    assert(cs.drop_last() =~= one);
    assert(one.drop_last() =~= Seq::<Command<T>>::empty());
    assert(joined(Seq::<Command<T>>::empty()) == Seq::<Action<T>>::empty());
    assert(joined(one) == joined(one.drop_last()) + c1@);
    assert(joined(one) =~= c1@);
    assert(joined(cs) == joined(one) + c2@);
}

/// Mapping a pure `f` over the batch of two commands gives, request by
/// request, what batching the two mapped commands gives.
pub proof fn lemma_map_batch<T, A, F: FnOnce(T) -> A>(
    c1: Command<T>,
    c2: Command<T>,
    f: F,
    batched: Command<T>,
    mapped_batch: Command<A>,
    m1: Command<A>,
    m2: Command<A>,
    batched_maps: Command<A>,
)
    requires
        forall|t: T, u: A, v: A| call_ensures(f, (t,), u) && call_ensures(f, (t,), v) ==> u == v,
        batched@ == joined(seq![c1, c2]),
        mapped_batch.mapped_from(batched, f),
        m1.mapped_from(c1, f),
        m2.mapped_from(c2, f),
        batched_maps@ == joined(seq![m1, m2]),
    ensures
        batched_maps@.len() == mapped_batch@.len(),
        forall|i: int|
            0 <= i < mapped_batch@.len() ==> #[trigger] batched_maps@[i].same_behaviour(
                mapped_batch@[i],
            ),
{
    lemma_batch_order(c1, c2);
    lemma_batch_order(m1, m2);
    assert forall|i: int| 0 <= i < mapped_batch@.len() implies #[trigger] batched_maps@[i].same_behaviour(
        mapped_batch@[i],
    ) by {
        assert(mapped_batch@[i].mapped_from(batched@[i], f));
        if i < c1@.len() {
            assert(batched_maps@[i] == m1@[i]);
            assert(batched@[i] == c1@[i]);
            assert(m1@[i].mapped_from(c1@[i], f));
            lemma_mapped_same_request(c1@[i], f, m1@[i], mapped_batch@[i]);
        } else {
            let j = i - c1@.len();
            assert(batched_maps@[i] == m2@[j]);
            assert(batched@[i] == c2@[j]);
            assert(m2@[j].mapped_from(c2@[j], f));
            lemma_mapped_same_request(c2@[j], f, m2@[j], mapped_batch@[i]);
        }
    }
}

} // verus!
