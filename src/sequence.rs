//! Helpers on sequences: consecutive ranges of given sizes, the round-robin
//! merge of several lists, and swapping the layers of a nested `Result`.

use std::ops::Range;

use vstd::prelude::*;

verus! {

/// The sum of a sequence of sizes.
pub open spec fn total(sizes: Seq<usize>) -> int
    decreases sizes.len(),
{
    if sizes.len() == 0 {
        0
    } else {
        total(sizes.drop_last()) + sizes.last()
    }
}

proof fn lemma_total_take_step(sizes: Seq<usize>, i: int)
    requires
        0 <= i < sizes.len(),
    ensures
        total(sizes.take(i + 1)) == total(sizes.take(i)) + sizes[i],
{
    assert(sizes.take(i + 1).drop_last() =~= sizes.take(i));
}

proof fn lemma_total_take_monotone(sizes: Seq<usize>, i: int, j: int)
    requires
        0 <= i <= j <= sizes.len(),
    ensures
        total(sizes.take(i)) <= total(sizes.take(j)),
    decreases j - i,
{
    if i < j {
        lemma_total_take_step(sizes, j - 1);
        lemma_total_take_monotone(sizes, i, j - 1);
    }
}

/// Consecutive ranges, the first beginning at `start`, the `i`-th holding
/// `chunk_sizes[i]` numbers: range `i` runs from `start` plus the sizes before
/// it up to that plus its own size.
pub fn chunked_range(start: usize, chunk_sizes: Vec<usize>) -> (r: Vec<Range<usize>>)
    requires
        start + total(chunk_sizes@) <= usize::MAX,
    ensures
        r@.len() == chunk_sizes@.len(),
        forall|i: int|
            0 <= i < r@.len() ==> #[trigger] r@[i].start == start + total(chunk_sizes@.take(i))
                && r@[i].end == start + total(chunk_sizes@.take(i + 1)),
{
    let mut r: Vec<Range<usize>> = Vec::new();
    let mut current_start: usize = start;
    let mut k: usize = 0;
    proof {
        assert(chunk_sizes@.take(chunk_sizes@.len() as int) =~= chunk_sizes@);
    }
    while k < chunk_sizes.len()
        invariant
            k <= chunk_sizes@.len(),
            r@.len() == k,
            current_start == start + total(chunk_sizes@.take(k as int)),
            start + total(chunk_sizes@) <= usize::MAX,
            chunk_sizes@.take(chunk_sizes@.len() as int) =~= chunk_sizes@,
            forall|i: int|
                0 <= i < k ==> #[trigger] r@[i].start == start + total(chunk_sizes@.take(i))
                    && r@[i].end == start + total(chunk_sizes@.take(i + 1)),
        decreases chunk_sizes@.len() - k,
    {
        let chunk_size = chunk_sizes[k];
        proof {
            lemma_total_take_step(chunk_sizes@, k as int);
            lemma_total_take_monotone(chunk_sizes@, k as int + 1, chunk_sizes@.len() as int);
        }
        let end = current_start + chunk_size;
        r.push(Range { start: current_start, end });
        current_start = end;
        k = k + 1;
    }
    r
}

/// The items at position `round` of the lists, in list order, skipping the
/// lists that are shorter.
pub open spec fn round_of<T>(lists: Seq<Seq<T>>, round: int) -> Seq<T>
    decreases lists.len(),
{
    if lists.len() == 0 {
        Seq::empty()
    } else {
        round_of(lists.drop_last(), round) + if round < lists.last().len() {
            seq![lists.last()[round]]
        } else {
            Seq::empty()
        }
    }
}

/// The first `rounds` rounds, one after the other.
pub open spec fn rounds_upto<T>(lists: Seq<Seq<T>>, rounds: nat) -> Seq<T>
    decreases rounds,
{
    if rounds == 0 {
        Seq::empty()
    } else {
        rounds_upto(lists, (rounds - 1) as nat) + round_of(lists, rounds - 1)
    }
}

/// The length of the longest list.
pub open spec fn longest<T>(lists: Seq<Seq<T>>) -> nat
    decreases lists.len(),
{
    if lists.len() == 0 {
        0
    } else if longest(lists.drop_last()) < lists.last().len() {
        lists.last().len()
    } else {
        longest(lists.drop_last())
    }
}

/// The round-robin merge of the lists: the first item of each list in turn,
/// then the second of each, and so on, passing over lists that have run out.
pub open spec fn interleaved<T>(lists: Seq<Seq<T>>) -> Seq<T> {
    rounds_upto(lists, longest(lists))
}

proof fn lemma_round_take_step<T>(lists: Seq<Seq<T>>, round: int, i: int)
    requires
        0 <= i < lists.len(),
    ensures
        round_of(lists.take(i + 1), round) == round_of(lists.take(i), round) + if round
            < lists[i].len() {
            seq![lists[i][round]]
        } else {
            Seq::<T>::empty()
        },
{
    assert(lists.take(i + 1).drop_last() =~= lists.take(i));
}

fn longest_len<T>(lists: &Vec<Vec<T>>) -> (r: usize)
    ensures
        r == longest(lists@.map_values(|l: Vec<T>| l@)),
{
    let ghost views = lists@.map_values(|l: Vec<T>| l@);
    let mut best: usize = 0;
    let mut i: usize = 0;
    while i < lists.len()
        invariant
            i <= lists@.len(),
            views == lists@.map_values(|l: Vec<T>| l@),
            best == longest(views.take(i as int)),
        decreases lists@.len() - i,
    {
        proof {
            assert(views.take(i as int + 1).drop_last() =~= views.take(i as int));
            assert(views.take(i as int + 1).last() == lists@[i as int]@);
        }
        if best < lists[i].len() {
            best = lists[i].len();
        }
        i = i + 1;
    }
    proof {
        assert(views.take(lists@.len() as int) =~= views);
    }
    best
}

/// The round-robin merge of `lists`, as a vector.
fn interleave<T: Copy>(lists: &Vec<Vec<T>>) -> (r: Vec<T>)
    ensures
        r@ == interleaved(lists@.map_values(|l: Vec<T>| l@)),
{
    let ghost views = lists@.map_values(|l: Vec<T>| l@);
    let rounds = longest_len(lists);
    let mut out: Vec<T> = Vec::new();
    let mut round: usize = 0;
    while round < rounds
        invariant
            round <= rounds,
            rounds == longest(views),
            views == lists@.map_values(|l: Vec<T>| l@),
            out@ == rounds_upto(views, round as nat),
        decreases rounds - round,
    {
        let mut i: usize = 0;
        while i < lists.len()
            invariant
                i <= lists@.len(),
                round < rounds,
                views == lists@.map_values(|l: Vec<T>| l@),
                out@ == rounds_upto(views, round as nat) + round_of(views.take(i as int), round as int),
            decreases lists@.len() - i,
        {
            proof {
                lemma_round_take_step(views, round as int, i as int);
            }
            if round < lists[i].len() {
                out.push(lists[i][round]);
            }
            i = i + 1;
        }
        proof {
            assert(views.take(lists@.len() as int) =~= views);
        }
        round = round + 1;
    }
    out
}

/// The round-robin merge of several lists, handed out one item at a time.
pub struct MultiInterleave<T> {
    items: Vec<T>,
    next_index: usize,
}

impl<T: Copy> MultiInterleave<T> {
    /// The whole merge, from its first item.
    pub closed spec fn merged(&self) -> Seq<T> {
        self.items@
    }

    /// How many items have been handed out.
    pub closed spec fn handed_out(&self) -> nat {
        self.next_index as nat
    }

    /// Whether the position is within the merge.
    pub closed spec fn wf(&self) -> bool {
        self.next_index <= self.items@.len()
    }

    /// Starts the merge of `lists`.
    pub fn new(lists: Vec<Vec<T>>) -> (r: MultiInterleave<T>)
        ensures
            r.wf(),
            r.merged() == interleaved(lists@.map_values(|l: Vec<T>| l@)),
            r.handed_out() == 0,
    {
        MultiInterleave { items: interleave(&lists), next_index: 0 }
    }

    /// The next item of the merge, or `None` once all have been handed out.
    pub fn next(&mut self) -> (r: Option<T>)
        requires
            old(self).wf(),
        ensures
            final(self).wf(),
            final(self).merged() == old(self).merged(),
            old(self).handed_out() < old(self).merged().len() ==> r == Some(
                old(self).merged()[old(self).handed_out() as int],
            ) && final(self).handed_out() == old(self).handed_out() + 1,
            old(self).handed_out() >= old(self).merged().len() ==> r is None
                && final(self).handed_out() == old(self).handed_out(),
    {
        if self.next_index < self.items.len() {
            let item = self.items[self.next_index];
            self.next_index = self.next_index + 1;
            Some(item)
        } else {
            None
        }
    }

    /// The items not yet handed out, in order; hands them all out.
    pub fn collect_remaining(&mut self) -> (r: Vec<T>)
        requires
            old(self).wf(),
        ensures
            final(self).wf(),
            final(self).merged() == old(self).merged(),
            r@ == old(self).merged().subrange(old(self).handed_out() as int, old(self).merged().len() as int),
            final(self).handed_out() == old(self).merged().len(),
    {
        let mut r: Vec<T> = Vec::new();
        let ghost start = self.next_index as int;
        while self.next_index < self.items.len()
            invariant
                start <= self.next_index <= self.items@.len(),
                start == old(self).next_index,
                self.items@ == old(self).items@,
                r@ == self.items@.subrange(start, self.next_index as int),
            decreases self.items@.len() - self.next_index,
        {
            r.push(self.items[self.next_index]);
            proof {
                assert(self.items@.subrange(start, self.next_index as int + 1) =~= r@);
            }
            self.next_index = self.next_index + 1;
        }
        r
    }
}

/// The round-robin merge of `lists`: the first item of each list in turn,
/// then the second of each, and so on.
pub fn multi_interleave<T: Copy>(lists: Vec<Vec<T>>) -> (r: MultiInterleave<T>)
    ensures
        r.wf(),
        r.merged() == interleaved(lists@.map_values(|l: Vec<T>| l@)),
        r.handed_out() == 0,
{
    MultiInterleave::new(lists)
}

/// Swapping the layers of a nested `Result`.
pub trait NestedTranspose<T, E, F>: Sized {
    /// The swapped value.
    spec fn spec_transpose(self) -> Result<Result<T, F>, E>;

    fn transpose(self) -> (r: Result<Result<T, F>, E>)
        ensures
            r == self.spec_transpose(),
    ;
}

impl<T, E, F> NestedTranspose<T, E, F> for Result<Result<T, E>, F> {
    /// `Ok(Ok(t))` stays; the inner error becomes the outer one and the outer
    /// error the inner one.
    open spec fn spec_transpose(self) -> Result<Result<T, F>, E> {
        match self {
            Ok(Ok(t)) => Ok(Ok(t)),
            Ok(Err(e)) => Err(e),
            Err(f) => Ok(Err(f)),
        }
    }

    fn transpose(self) -> (r: Result<Result<T, F>, E>) {
        match self {
            Ok(Ok(t)) => Ok(Ok(t)),
            Ok(Err(e)) => Err(e),
            Err(f) => Ok(Err(f)),
        }
    }
}

/// Transposing twice gives the value back.
pub proof fn lemma_transpose_twice<T, E, F>(v: Result<Result<T, E>, F>)
    ensures
        v.spec_transpose().spec_transpose() == v,
{
}

} // verus!
