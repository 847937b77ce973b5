use vstd::prelude::*;

use crate::poll::Poll;

verus! {

/// Where a `FilterFold`'s accumulator is between polls.
#[derive(Debug)]
pub enum FoldState<A> {
    /// Ready to take the next upstream event; the accumulator rests here.
    Ready(A),
    /// The source ended or failed; the accumulator is gone for good.
    Consumed,
}

/// What a `FilterFold` asks of its driver after taking one upstream event.
#[derive(Debug, PartialEq, Eq)]
pub enum FoldStep<U, E> {
    /// The step produced no output: poll the source again, within the same
    /// outer poll, and hand the new event over.
    Pull,
    /// Report this to whoever polled the combinator.
    Report(Poll<U, E>),
}

/// Threads an accumulator through a step function over the events of a source,
/// emitting the outputs that the step produces.
///
/// The step takes the accumulator and `Some(item)` for each upstream item, and
/// the accumulator and `None` once, when the source ends, so that it may flush a
/// last output. It returns the new accumulator and an optional output.
///
/// A failure of the source is reported at once and the accumulator is dropped,
/// without a flush. Once the machine has reported the end (or a failure), every
/// later poll reports `End`, whatever event it is handed.
pub struct FilterFold<A, F> {
    step: F,
    state: FoldState<A>,
}

/// The output that a step's optional result stands for, as the step reports it
/// while the source still runs.
pub open spec fn item_step<U, E>(out: Option<U>) -> FoldStep<U, E> {
    match out {
        Some(u) => FoldStep::Report(Poll::Item(u)),
        None => FoldStep::Pull,
    }
}

/// The output of the final flush: its item if it made one, else the end.
pub open spec fn flush_step<U, E>(out: Option<U>) -> FoldStep<U, E> {
    match out {
        Some(u) => FoldStep::Report(Poll::Item(u)),
        None => FoldStep::Report(Poll::End),
    }
}

/// One poll of a `FilterFold` with step `f`: from state `s`, handed upstream
/// event `ev`, the machine may move to `s2` and return `r`.
///
/// The step is taken as the relation its own contract states, so that a
/// step whose result is not fixed by its arguments is covered too.
pub open spec fn fold_transition<T, A, U, E, F: Fn(A, Option<T>) -> (A, Option<U>)>(
    f: F,
    s: FoldState<A>,
    ev: Poll<T, E>,
    s2: FoldState<A>,
    r: FoldStep<U, E>,
) -> bool {
    match s {
        FoldState::Consumed => s2 == FoldState::<A>::Consumed && r == FoldStep::<U, E>::Report(
            Poll::End,
        ),
        FoldState::Ready(acc) => match ev {
            Poll::Pending => s2 == s && r == FoldStep::<U, E>::Report(Poll::Pending),
            Poll::Failure(e) => s2 == FoldState::<A>::Consumed && r == FoldStep::<U, E>::Report(
                Poll::Failure(e),
            ),
            Poll::Item(x) => exists|acc2: A, out: Option<U>|
                {
                    &&& f.ensures((acc, Some(x)), (acc2, out))
                    &&& s2 == FoldState::Ready(acc2)
                    &&& r == item_step::<U, E>(out)
                },
            Poll::End => exists|acc2: A, out: Option<U>|
                {
                    &&& f.ensures((acc, None), (acc2, out))
                    &&& s2 == FoldState::<A>::Consumed
                    &&& r == flush_step::<U, E>(out)
                },
        },
    }
}

/// A run of `f`'s machine: `states[i]` is the state before the `i`-th poll,
/// which is handed `evs[i]` and returns `steps[i]`.
pub open spec fn fold_run<T, A, U, E, F: Fn(A, Option<T>) -> (A, Option<U>)>(
    f: F,
    states: Seq<FoldState<A>>,
    evs: Seq<Poll<T, E>>,
    steps: Seq<FoldStep<U, E>>,
) -> bool {
    &&& states.len() == evs.len() + 1
    &&& steps.len() == evs.len()
    &&& forall|i: int|
        #![trigger evs[i]]
        0 <= i < evs.len() ==> fold_transition(f, states[i], evs[i], states[i + 1], steps[i])
}

/// Once a poll has reported the end, every later poll of the run reports the end.
pub proof fn lemma_fold_end_is_final<T, A, U, E, F: Fn(A, Option<T>) -> (A, Option<U>)>(
    f: F,
    states: Seq<FoldState<A>>,
    evs: Seq<Poll<T, E>>,
    steps: Seq<FoldStep<U, E>>,
    i: int,
    j: int,
)
    requires
        fold_run(f, states, evs, steps),
        0 <= i <= j < evs.len(),
        steps[i] == FoldStep::<U, E>::Report(Poll::End),
    ensures
        steps[j] == FoldStep::<U, E>::Report(Poll::End),
    decreases j - i,
{
    if i < j {
        assert(fold_transition(f, states[i], evs[i], states[i + 1], steps[i]));
        assert(fold_transition(f, states[i + 1], evs[i + 1], states[i + 2], steps[i + 1]));
        lemma_fold_end_is_final(f, states, evs, steps, i + 1, j);
    }
}

/// A source that is pending for a while changes nothing but the timing: in a
/// run where the source reported `Pending` before the `k`-th event, the machine
/// reports `Pending` there, keeps its state, and otherwise reports what it
/// reports when the source is ready at once.
pub proof fn lemma_fold_pending_is_transparent<T, A, U, E, F: Fn(A, Option<T>) -> (A, Option<U>)>(
    f: F,
    states: Seq<FoldState<A>>,
    evs: Seq<Poll<T, E>>,
    steps: Seq<FoldStep<U, E>>,
    k: int,
)
    requires
        fold_run(f, states, evs, steps),
        0 <= k <= evs.len(),
        states[k] is Ready,
    ensures
        fold_run(
            f,
            states.insert(k, states[k]),
            evs.insert(k, Poll::Pending),
            steps.insert(k, FoldStep::Report(Poll::Pending)),
        ),
        forall|states2: Seq<FoldState<A>>, steps2: Seq<FoldStep<U, E>>|
            fold_run(f, states2, evs.insert(k, Poll::Pending), steps2) && states2[k] == states[k]
                ==> {
                &&& steps2[k] == FoldStep::<U, E>::Report(Poll::Pending)
                &&& states2[k + 1] == states[k]
                &&& fold_run(f, states2.remove(k), evs, steps2.remove(k))
            },
{
    let states1 = states.insert(k, states[k]);
    let evs1 = evs.insert(k, Poll::<T, E>::Pending);
    let steps1 = steps.insert(k, FoldStep::<U, E>::Report(Poll::Pending));
    assert forall|i: int| 0 <= i < evs1.len() implies fold_transition(
        f,
        states1[i],
        #[trigger] evs1[i],
        states1[i + 1],
        steps1[i],
    ) by {
        if i < k {
            assert(fold_transition(f, states[i], evs[i], states[i + 1], steps[i]));
        } else if i > k {
            assert(fold_transition(f, states[i - 1], evs[i - 1], states[i], steps[i - 1]));
        }
    }
    assert forall|states2: Seq<FoldState<A>>, steps2: Seq<FoldStep<U, E>>|
        fold_run(f, states2, evs1, steps2) && states2[k] == states[k] implies {
        &&& steps2[k] == FoldStep::<U, E>::Report(Poll::Pending)
        &&& states2[k + 1] == states[k]
        &&& fold_run(f, states2.remove(k), evs, steps2.remove(k))
    } by {
        assert(evs1[k] == Poll::<T, E>::Pending);
        assert(fold_transition(f, states2[k], evs1[k], states2[k + 1], steps2[k]));
        let states3 = states2.remove(k);
        let steps3 = steps2.remove(k);
        assert forall|i: int| 0 <= i < evs.len() implies fold_transition(
            f,
            states3[i],
            #[trigger] evs[i],
            states3[i + 1],
            steps3[i],
        ) by {
            if i < k {
                assert(evs1[i] == evs[i]);
                assert(fold_transition(f, states2[i], evs1[i], states2[i + 1], steps2[i]));
            } else {
                assert(evs1[i + 1] == evs[i]);
                assert(fold_transition(f, states2[i + 1], evs1[i + 1], states2[i + 2], steps2[i + 1]));
            }
        }
    }
}

impl<A, F> FilterFold<A, F> {
    /// The state the machine is in.
    pub closed spec fn state(&self) -> FoldState<A> {
        self.state
    }

    /// The step function the machine applies.
    pub closed spec fn step_fn(&self) -> F {
        self.step
    }

    /// A machine that starts from accumulator `acc` and applies `step`.
    pub fn new(acc: A, step: F) -> (r: Self)
        ensures
            r.state() == FoldState::Ready(acc),
            r.step_fn() == step,
    {
        FilterFold { step, state: FoldState::Ready(acc) }
    }

    /// Whether the machine has reached its terminal state: its driver then
    /// need not poll the source any more.
    pub fn is_consumed(&self) -> (r: bool)
        ensures
            r == (self.state() is Consumed),
    {
        match self.state {
            FoldState::Consumed => true,
            FoldState::Ready(_) => false,
        }
    }

    /// Takes one event of the source and says what to do next.
    ///
    /// In the terminal state the event is not looked at and the end is reported.
    pub fn poll<T, U, E>(&mut self, ev: Poll<T, E>) -> (r: FoldStep<U, E>) where
        F: Fn(A, Option<T>) -> (A, Option<U>),
        requires
            forall|a: A, x: Option<T>| old(self).step_fn().requires((a, x)),
        ensures
            final(self).step_fn() == old(self).step_fn(),
            fold_transition(old(self).step_fn(), old(self).state(), ev, final(self).state(), r),
    {
        let mut cur = FoldState::Consumed;
        core::mem::swap(&mut self.state, &mut cur);
        match cur {
            FoldState::Consumed => FoldStep::Report(Poll::End),
            FoldState::Ready(acc) => match ev {
                Poll::Pending => {
                    self.state = FoldState::Ready(acc);
                    FoldStep::Report(Poll::Pending)
                },
                Poll::Failure(e) => FoldStep::Report(Poll::Failure(e)),
                Poll::Item(x) => {
                    assert(old(self).step_fn().requires((acc, Some(x))));
                    let (acc2, out) = (self.step)(acc, Some(x));
                    self.state = FoldState::Ready(acc2);
                    match out {
                        Some(u) => FoldStep::Report(Poll::Item(u)),
                        None => FoldStep::Pull,
                    }
                },
                Poll::End => {
                    assert(old(self).step_fn().requires((acc, None::<T>)));
                    let (_rest, out) = (self.step)(acc, None);
                    match out {
                        Some(u) => FoldStep::Report(Poll::Item(u)),
                        None => FoldStep::Report(Poll::End),
                    }
                },
            },
        }
    }
}

} // verus!
