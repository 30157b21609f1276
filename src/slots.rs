//! A pre-sized arena of results, one slot per unit of a batch. Concurrent
//! tasks finish in any order; each one's result is put in its own slot, so the
//! collected results stay aligned with the units whatever that order was.
use vstd::prelude::*;

verus! {

/// One slot per unit of a batch, each empty until its result is put there.
pub struct Slots<T> {
    slots: Vec<Option<T>>,
}

impl<T> View for Slots<T> {
    type V = Seq<Option<T>>;

    closed spec fn view(&self) -> Seq<Option<T>> {
        self.slots@
    }
}

/// `n` empty slots.
pub open spec fn empty_slots<T>(n: nat) -> Seq<Option<T>> {
    Seq::new(n, |i: int| None)
}

/// The slots after each `(index, result)` of `events` has been put, in order.
pub open spec fn filled<T>(slots: Seq<Option<T>>, events: Seq<(int, T)>) -> Seq<Option<T>>
    decreases events.len(),
{
    if events.len() == 0 {
        slots
    } else {
        filled(slots, events.drop_last()).update(events.last().0, Some(events.last().1))
    }
}

/// Unit `order[k]` finishing `k`-th, each with the result meant for it.
pub open spec fn completions<T>(results: Seq<T>, order: Seq<int>) -> Seq<(int, T)> {
    order.map_values(|j: int| (j, results[j]))
}

proof fn lemma_filled_slot<T>(results: Seq<T>, order: Seq<int>)
    requires
        forall|k: int| 0 <= k < order.len() ==> 0 <= #[trigger] order[k] < results.len(),
    ensures
        filled(empty_slots::<T>(results.len()), completions(results, order)).len()
            == results.len(),
        forall|j: int|
            0 <= j < results.len() ==> #[trigger] filled(
                empty_slots::<T>(results.len()),
                completions(results, order),
            )[j] == if order.contains(j) {
                Some(results[j])
            } else {
                None
            },
    decreases order.len(),
{
    let events = completions(results, order);
    if order.len() > 0 {
        let rest = order.drop_last();
        assert(events.drop_last() =~= completions(results, rest));
        lemma_filled_slot(results, rest);
        assert forall|j: int| 0 <= j < results.len() implies #[trigger] order.contains(j) == (
        rest.contains(j) || order.last() == j) by {
            if order.contains(j) && order.last() != j {
                let k = choose|k: int| 0 <= k < order.len() && order[k] == j;
                assert(rest[k] == j);
            }
            if rest.contains(j) {
                let k = choose|k: int| 0 <= k < rest.len() && rest[k] == j;
                assert(order[k] == j);
            }
            if order.last() == j {
                assert(order[order.len() - 1] == j);
            }
        }
    }
}

/// Whatever order the units of a batch finish in, once every unit has put its
/// own result in its own slot, slot `i` holds the result of unit `i`.
pub proof fn lemma_completion_order_irrelevant<T>(results: Seq<T>, order: Seq<int>)
    requires
        forall|k: int| 0 <= k < order.len() ==> 0 <= #[trigger] order[k] < results.len(),
        forall|j: int| 0 <= j < results.len() ==> #[trigger] order.contains(j),
    ensures
        filled(empty_slots::<T>(results.len()), completions(results, order))
            == results.map_values(|x: T| Some(x)),
{
    lemma_filled_slot(results, order);
    assert(filled(empty_slots::<T>(results.len()), completions(results, order))
        =~= results.map_values(|x: T| Some(x)));
}

impl<T> Slots<T> {
    /// `n` empty slots.
    pub fn new(n: usize) -> (r: Self)
        ensures
            r@ == empty_slots::<T>(n as nat),
    {
        let mut slots: Vec<Option<T>> = Vec::new();
        let mut i: usize = 0;
        while i < n
            invariant
                i <= n,
                slots@ == empty_slots::<T>(i as nat),
            decreases n - i,
        {
            slots.push(None);
            i = i + 1;
            assert(slots@ =~= empty_slots::<T>(i as nat));
        }
        Slots { slots }
    }

    /// The number of slots.
    pub fn len(&self) -> (r: usize)
        ensures
            r == self@.len(),
    {
        self.slots.len()
    }

    /// Puts the result of unit `i` in its slot.
    pub fn put(&mut self, i: usize, result: T)
        requires
            i < old(self)@.len(),
        ensures
            final(self)@ == old(self)@.update(i as int, Some(result)),
    {
        self.slots.set(i, Some(result));
    }

    /// The results in unit order, once every slot holds one.
    pub fn into_results(self) -> (r: Option<Vec<T>>)
        ensures
            r is Some <==> forall|i: int| 0 <= i < self@.len() ==> self@[i] is Some,
            r matches Some(v) ==> v@.len() == self@.len() && forall|i: int|
                0 <= i < self@.len() ==> self@[i] == Some(#[trigger] v@[i]),
    {
        unwrap_all(self.slots)
    }
}

fn unwrap_all<T>(cells: Vec<Option<T>>) -> (r: Option<Vec<T>>)
    ensures
        r is Some <==> forall|i: int| 0 <= i < cells@.len() ==> cells@[i] is Some,
        r matches Some(v) ==> v@.len() == cells@.len() && forall|i: int|
            0 <= i < cells@.len() ==> cells@[i] == Some(#[trigger] v@[i]),
{
    let ghost start = cells@;
    let mut slots = cells;
    let n = slots.len();
    let mut out: Vec<T> = Vec::new();
    let mut i: usize = 0;
    while i < n
        invariant
            start == cells@,
            n == start.len(),
            i <= n,
            slots@.len() == n,
            out@.len() == i,
            forall|k: int| 0 <= k < i ==> start[k] == Some(#[trigger] out@[k]),
            forall|k: int| i <= k < n ==> slots@[k] == start[k],
        decreases n - i,
    {
        let taken = slots[i].take();
        match taken {
            Some(v) => {
                out.push(v);
            },
            None => {
                assert(start[i as int] is None);
                return None;
            },
        }
        i = i + 1;
    }
    assert forall|k: int| 0 <= k < start.len() implies start[k] is Some by {
        assert(start[k] == Some(out@[k]));
    }
    Some(out)
}

} // verus!
