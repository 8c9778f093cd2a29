use vstd::prelude::*;

verus! {

/// How many of the outcomes are successes.
pub open spec fn count_some<R>(s: Seq<Option<R>>) -> nat
    decreases s.len(),
{
    if s.len() == 0 {
        0
    } else {
        count_some(s.drop_last()) + if s.last() is Some { 1nat } else { 0nat }
    }
}

/// The successful outcomes' values, in the order of their items.
pub open spec fn successes<R>(s: Seq<Option<R>>) -> Seq<R>
    decreases s.len(),
{
    if s.len() == 0 {
        Seq::empty()
    } else {
        let rest = successes(s.drop_last());
        match s.last() {
            Some(r) => rest.push(r),
            None => rest,
        }
    }
}

/// The outcomes recorded after the items of `order` have completed, one
/// after another, starting from none, where item `i` ends in `outcomes[i]`.
pub open spec fn recorded<R>(order: Seq<usize>, outcomes: Seq<Option<R>>) -> Seq<Option<R>>
    decreases order.len(),
{
    if order.len() == 0 {
        Seq::new(outcomes.len(), |i: int| None::<R>)
    } else {
        let i = order.last();
        recorded(order.drop_last(), outcomes).update(i as int, outcomes[i as int])
    }
}

/// There are as many values as successes, and no more successes than
/// outcomes.
pub proof fn lemma_successes_len<R>(s: Seq<Option<R>>)
    ensures
        successes(s).len() == count_some(s),
        count_some(s) <= s.len(),
    decreases s.len(),
{
    if s.len() > 0 {
        lemma_successes_len(s.drop_last());
    }
}

proof fn lemma_recorded<R>(order: Seq<usize>, outcomes: Seq<Option<R>>)
    requires
        forall|k: int| 0 <= k < order.len() ==> order[k] < outcomes.len(),
    ensures
        recorded(order, outcomes).len() == outcomes.len(),
        forall|i: usize|
            (i as int) < outcomes.len() ==> #[trigger] recorded(order, outcomes)[i as int]
                == if order.contains(i) {
                outcomes[i as int]
            } else {
                None
            },
    decreases order.len(),
{
    if order.len() > 0 {
        let rest = order.drop_last();
        lemma_recorded(rest, outcomes);
        assert forall|i: usize| (i as int) < outcomes.len() implies #[trigger] recorded(
            order,
            outcomes,
        )[i as int] == if order.contains(i) { outcomes[i as int] } else { None } by {
            if i != order.last() {
                if order.contains(i) {
                    let k = choose|k: int| 0 <= k < order.len() && order[k] == i;
                    assert(k != order.len() - 1);
                    assert(rest[k] == i);
                }
                if rest.contains(i) {
                    let k = choose|k: int| 0 <= k < rest.len() && rest[k] == i;
                    assert(order[k] == i);
                }
            } else {
                assert(order[order.len() - 1] == i);
            }
        }
    }
}

/// Whatever the order in which the fetches of a batch complete, once every
/// item has completed, the batch yields exactly one value per successful
/// fetch, in the order of the items: never more, never fewer.
pub proof fn lemma_any_completion_order<R>(order: Seq<usize>, outcomes: Seq<Option<R>>)
    requires
        outcomes.len() <= usize::MAX,
        forall|k: int| 0 <= k < order.len() ==> order[k] < outcomes.len(),
        forall|i: usize| (i as int) < outcomes.len() ==> #[trigger] order.contains(i),
    ensures
        recorded(order, outcomes) == outcomes,
        successes(recorded(order, outcomes)) == successes(outcomes),
        successes(recorded(order, outcomes)).len() == count_some(outcomes),
{
    lemma_recorded(order, outcomes);
    assert forall|i: int| 0 <= i < outcomes.len() implies recorded(order, outcomes)[i]
        == outcomes[i] by {
        assert(order.contains(i as usize));
        assert(recorded(order, outcomes)[(i as usize) as int] == outcomes[i]);
    }
    assert(recorded(order, outcomes) =~= outcomes);
    lemma_successes_len(outcomes);
}

/// A batch of independent fetches: each item's address is handed out once,
/// each item completes once, with a value or without one, in any order, and
/// the values of the successful ones come out in the order of the items.
pub struct FetchBatch<R> {
    urls: Vec<String>,
    sent: usize,
    finished: Vec<bool>,
    slots: Vec<Option<R>>,
}

impl<R> FetchBatch<R> {
    /// The addresses of the items, in order.
    pub closed spec fn addresses(&self) -> Seq<Seq<char>> {
        self.urls@.map_values(|u: String| u@)
    }

    /// How many items have been handed out.
    pub closed spec fn sent(&self) -> nat {
        self.sent as nat
    }

    /// Under the invariant, there is one completion flag and one outcome per
    /// item, and no more items handed out than there are.
    pub proof fn lemma_sizes(&self)
        requires
            self.wf(),
        ensures
            self.finished().len() == self.addresses().len(),
            self.outcomes().len() == self.addresses().len(),
            self.sent() <= self.addresses().len(),
    {
    }

    /// Which items have completed.
    pub closed spec fn finished(&self) -> Seq<bool> {
        self.finished@
    }

    /// The outcome recorded for each item; none for an item that has not
    /// completed or whose fetch failed.
    pub closed spec fn outcomes(&self) -> Seq<Option<R>> {
        self.slots@
    }

    pub closed spec fn wf(&self) -> bool {
        &&& self.finished@.len() == self.urls@.len()
        &&& self.slots@.len() == self.urls@.len()
        &&& self.sent <= self.urls@.len()
        &&& forall|i: int| 0 <= i < self.finished@.len() && #[trigger] self.finished@[i] ==> i < self.sent
        &&& forall|i: int| 0 <= i < self.slots@.len() && #[trigger] self.slots@[i] is Some ==> self.finished@[i]
    }

    /// A batch of one item per address, none of them handed out yet.
    pub fn new(urls: Vec<String>) -> (r: Self)
        ensures
            r.wf(),
            r.addresses() == urls@.map_values(|u: String| u@),
            r.sent() == 0,
            r.finished() == Seq::new(urls@.len(), |i: int| false),
            r.outcomes() == Seq::new(urls@.len(), |i: int| None::<R>),
    {
        let n = urls.len();
        let mut finished: Vec<bool> = Vec::new();
        let mut slots: Vec<Option<R>> = Vec::new();
        let mut i: usize = 0;
        while i < n
            invariant
                i <= n,
                finished@ == Seq::new(i as nat, |k: int| false),
                slots@ == Seq::new(i as nat, |k: int| None::<R>),
            decreases n - i,
        {
            finished.push(false);
            slots.push(None);
            i = i + 1;
            assert(finished@ =~= Seq::new(i as nat, |k: int| false));
            assert(slots@ =~= Seq::new(i as nat, |k: int| None::<R>));
        }
        FetchBatch { urls, sent: 0, finished, slots }
    }

    /// How many items the batch holds.
    pub fn len(&self) -> (r: usize)
        ensures
            r == self.addresses().len(),
    {
        self.urls.len()
    }

    /// A batch of no items has nothing to hand out, is done at once, and
    /// yields nothing.
    pub proof fn lemma_empty_batch(&self)
        requires
            self.wf(),
            self.addresses().len() == 0,
        ensures
            self.sent() == self.addresses().len(),
            self.finished().len() == 0,
            successes(self.outcomes()).len() == 0,
    {
    }

    /// Hands out the next item and its address; none once every item has
    /// been handed out, so that a batch of no items fetches nothing.
    pub fn next_request(&mut self) -> (r: Option<(usize, String)>)
        requires
            old(self).wf(),
        ensures
            final(self).wf(),
            final(self).addresses() == old(self).addresses(),
            final(self).finished() == old(self).finished(),
            final(self).outcomes() == old(self).outcomes(),
            r is None <==> old(self).sent() == old(self).addresses().len(),
            r is None ==> final(self).sent() == old(self).sent(),
            r matches Some(p) ==> {
                &&& p.0 == old(self).sent()
                &&& p.1@ == old(self).addresses()[p.0 as int]
                &&& final(self).sent() == old(self).sent() + 1
            },
    {
        if self.sent == self.urls.len() {
            return None;
        }
        let i = self.sent;
        let u = self.urls[i].clone();
        self.sent = i + 1;
        Some((i, u))
    }

    /// Whether item `index` has been handed out and has not completed yet.
    pub fn is_pending(&self, index: usize) -> (r: bool)
        requires
            self.wf(),
        ensures
            r == (index < self.sent() && !self.finished()[index as int]),
    {
        index < self.sent && !self.finished[index]
    }

    /// Records that item `index` completed, with the decoded value or with
    /// none where the fetch or the decoding failed.
    pub fn complete(&mut self, index: usize, outcome: Option<R>)
        requires
            old(self).wf(),
            index < old(self).sent(),
            !old(self).finished()[index as int],
        ensures
            final(self).wf(),
            final(self).addresses() == old(self).addresses(),
            final(self).sent() == old(self).sent(),
            final(self).finished() == old(self).finished().update(index as int, true),
            final(self).outcomes() == old(self).outcomes().update(index as int, outcome),
    {
        self.finished.set(index, true);
        self.slots.set(index, outcome);
    }

    /// Whether every item has completed.
    pub fn is_done(&self) -> (r: bool)
        requires
            self.wf(),
        ensures
            r == forall|i: int| 0 <= i < self.finished().len() ==> self.finished()[i],
    {
        let mut i: usize = 0;
        while i < self.finished.len()
            invariant
                i <= self.finished@.len(),
                forall|k: int| 0 <= k < i ==> self.finished@[k],
            decreases self.finished@.len() - i,
        {
            if !self.finished[i] {
                assert(!self.finished()[i as int]);
                return false;
            }
            i = i + 1;
        }
        true
    }

    /// The values of the successful fetches, in the order of the items: as
    /// many as there were successes.
    pub fn into_results(self) -> (r: Vec<R>)
        requires
            self.wf(),
        ensures
            r@ == successes(self.outcomes()),
            r@.len() == count_some(self.outcomes()),
            r@.len() <= self.addresses().len(),
    {
        let ghost all = self.slots@;
        let mut slots = self.slots;
        let mut backwards: Vec<R> = Vec::new();
        while slots.len() > 0
            invariant
                slots@ == all.take(slots@.len() as int),
                slots@.len() <= all.len(),
                successes(all) == successes(slots@) + backwards@.reverse(),
            decreases slots@.len(),
        {
            let ghost before = slots@;
            let s = slots.pop().unwrap();
            assert(before.drop_last() == slots@);
            assert(slots@ =~= all.take(slots@.len() as int));
            match s {
                Some(v) => {
                    let ghost b = backwards@;
                    backwards.push(v);
                    assert(backwards@.reverse() =~= seq![v] + b.reverse());
                    assert(successes(before) == successes(slots@).push(v));
                    assert(successes(slots@).push(v) + b.reverse() =~= successes(slots@)
                        + backwards@.reverse());
                },
                None => {},
            }
        }
        let mut r: Vec<R> = Vec::new();
        let ghost rest = backwards@;
        while backwards.len() > 0
            invariant
                rest.reverse() == r@ + backwards@.reverse(),
            decreases backwards@.len(),
        {
            let ghost before = backwards@;
            let v = backwards.pop().unwrap();
            r.push(v);
            assert(before.reverse() =~= seq![v] + backwards@.reverse());
            assert(r@ + backwards@.reverse() =~= r@.drop_last() + before.reverse());
        }
        assert(successes(slots@) =~= Seq::<R>::empty());
        assert(r@ + backwards@.reverse() =~= r@);
        proof {
            lemma_successes_len(all);
        }
        r
    }
}

} // verus!
