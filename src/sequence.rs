use vstd::prelude::*;

use crate::poll::Poll;

verus! {

/// The phase of a `Sequence`.
#[derive(Debug)]
pub enum SeqState<F> {
    /// No event of the source has been seen yet; the transform is held here.
    AwaitingFirst(F),
    /// The transform has been handed out; the downstream sequence that it built
    /// is polled from now on.
    Streaming,
    /// The source ended before it produced anything.
    Finished,
}

/// What a `Sequence` asks of its driver after the source's first event.
#[derive(Debug, PartialEq, Eq)]
pub enum FirstStep<F, T, E> {
    /// The source is not ready: report `Pending`.
    Pending,
    /// The source ended without an event: report the end.
    End,
    /// Build the sequence that replays this event and then goes on with the
    /// rest of the source, call the transform on it once, and poll what it
    /// returns.
    Start(F, Result<T, E>),
}

/// Defers a transform of a source until the source's first event is seen.
///
/// The transform is held until then and handed out exactly once, together with
/// that event, so that the sequence it builds starts with it. If the source ends
/// first, the transform is dropped unused and the end is reported. Afterwards
/// every poll goes to the downstream sequence unchanged, or reports the end.
pub struct Sequence<F> {
    state: SeqState<F>,
}

/// The state and step after the source's first event `ev` is seen in state `s`.
pub open spec fn first_transition<F, T, E>(s: SeqState<F>, ev: Poll<T, E>) -> (SeqState<F>, FirstStep<F, T, E>) {
    match s {
        SeqState::AwaitingFirst(f) => match ev {
            Poll::Pending => (s, FirstStep::Pending),
            Poll::End => (SeqState::Finished, FirstStep::End),
            Poll::Item(x) => (SeqState::Streaming, FirstStep::Start(f, Ok(x))),
            Poll::Failure(e) => (SeqState::Streaming, FirstStep::Start(f, Err(e))),
        },
        _ => (s, FirstStep::End),
    }
}

/// What is reported in state `s` when the downstream sequence reported `ev`.
pub open spec fn downstream_report<F, V, G>(s: SeqState<F>, ev: Poll<V, G>) -> Poll<V, G> {
    match s {
        SeqState::Streaming => ev,
        _ => Poll::End,
    }
}

/// One call on a `Sequence`, of either kind, from `s` to `s2`; `handed` tells
/// whether the call handed the transform out.
pub open spec fn seq_move<F>(s: SeqState<F>, s2: SeqState<F>, handed: bool) -> bool {
    match s {
        SeqState::AwaitingFirst(_) => {
            ||| s2 == s && !handed
            ||| s2 == SeqState::<F>::Finished && !handed
            ||| s2 == SeqState::<F>::Streaming && handed
        },
        _ => s2 == s && !handed,
    }
}

/// A run of calls: the `i`-th call goes from `states[i]` to `states[i + 1]`,
/// handing the transform out if `handed[i]`.
pub open spec fn seq_run<F>(states: Seq<SeqState<F>>, handed: Seq<bool>) -> bool {
    &&& states.len() == handed.len() + 1
    &&& forall|i: int|
        #![trigger handed[i]]
        0 <= i < handed.len() ==> seq_move(states[i], states[i + 1], handed[i])
}

/// From a state that is not `AwaitingFirst`, the machine never leaves it and
/// never hands the transform out.
pub proof fn lemma_seq_settled<F>(states: Seq<SeqState<F>>, handed: Seq<bool>, i: int, j: int)
    requires
        seq_run(states, handed),
        0 <= i <= j <= handed.len(),
        !(states[i] is AwaitingFirst),
    ensures
        states[j] == states[i],
        j < handed.len() ==> !handed[j],
    decreases j - i,
{
    if i < j {
        assert(seq_move(states[i], states[i + 1], handed[i]));
        lemma_seq_settled(states, handed, i + 1, j);
    } else if j < handed.len() {
        assert(seq_move(states[j], states[j + 1], handed[j]));
    }
}

/// The transform is handed out at most once in any run, and only on the step
/// from `AwaitingFirst` to `Streaming`.
pub proof fn lemma_transform_handed_once<F>(states: Seq<SeqState<F>>, handed: Seq<bool>, i: int, j: int)
    requires
        seq_run(states, handed),
        0 <= i < handed.len(),
        0 <= j < handed.len(),
        handed[i],
        handed[j],
    ensures
        i == j,
        states[i] is AwaitingFirst,
        states[i + 1] is Streaming,
{
    assert(seq_move(states[i], states[i + 1], handed[i]));
    assert(seq_move(states[j], states[j + 1], handed[j]));
    if i < j {
        lemma_seq_settled(states, handed, i + 1, j);
    } else if j < i {
        lemma_seq_settled(states, handed, j + 1, i);
    }
}

/// Once a `Sequence` has finished, every later call reports the end; once it
/// streams, every later call reports what the downstream sequence reported.
pub proof fn lemma_seq_end_is_final<F, V, G>(
    states: Seq<SeqState<F>>,
    handed: Seq<bool>,
    i: int,
    j: int,
    ev: Poll<V, G>,
)
    requires
        seq_run(states, handed),
        0 <= i <= j <= handed.len(),
        !(states[i] is AwaitingFirst),
    ensures
        states[i] is Finished ==> downstream_report(states[j], ev) == Poll::<V, G>::End,
        states[i] is Streaming ==> downstream_report(states[j], ev) == ev,
{
    lemma_seq_settled(states, handed, i, j);
}

/// A source that is pending before its first event changes nothing but the
/// timing: the machine reports `Pending`, keeps its state, and then does with
/// the first real event what it would have done had the source been ready at once.
pub proof fn lemma_seq_pending_is_transparent<F, T, E>(s: SeqState<F>, ev: Poll<T, E>)
    requires
        s is AwaitingFirst,
    ensures
        first_transition(s, Poll::<T, E>::Pending) == (s, FirstStep::<F, T, E>::Pending),
        first_transition(first_transition(s, Poll::<T, E>::Pending).0, ev) == first_transition(s, ev),
{
}

impl<F> Sequence<F> {
    /// The phase the machine is in.
    pub closed spec fn state(&self) -> SeqState<F> {
        self.state
    }

    /// A machine that holds `transform` until the source's first event.
    pub fn new(transform: F) -> (r: Self)
        ensures
            r.state() == SeqState::AwaitingFirst(transform),
    {
        Sequence { state: SeqState::AwaitingFirst(transform) }
    }

    /// Whether the source's first event is still awaited: the driver then polls
    /// the source and hands the result to `on_first`, and otherwise polls the
    /// downstream sequence (if there is one) and hands the result to
    /// `on_downstream`.
    pub fn awaits_first(&self) -> (r: bool)
        ensures
            r == (self.state() is AwaitingFirst),
    {
        match self.state {
            SeqState::AwaitingFirst(_) => true,
            _ => false,
        }
    }

    /// Whether the source ended before its first event: nothing is left to poll.
    pub fn is_finished(&self) -> (r: bool)
        ensures
            r == (self.state() is Finished),
    {
        match self.state {
            SeqState::Finished => true,
            _ => false,
        }
    }

    /// Takes the source's first event, or its `Pending`.
    pub fn on_first<T, E>(&mut self, ev: Poll<T, E>) -> (r: FirstStep<F, T, E>)
        requires
            old(self).state() is AwaitingFirst,
        ensures
            (final(self).state(), r) == first_transition(old(self).state(), ev),
            seq_move(old(self).state(), final(self).state(), r is Start),
    {
        let mut cur = SeqState::Finished;
        core::mem::swap(&mut self.state, &mut cur);
        match cur {
            SeqState::AwaitingFirst(f) => match ev {
                Poll::Pending => {
                    self.state = SeqState::AwaitingFirst(f);
                    FirstStep::Pending
                },
                Poll::End => FirstStep::End,
                Poll::Item(x) => {
                    self.state = SeqState::Streaming;
                    FirstStep::Start(f, Ok(x))
                },
                Poll::Failure(e) => {
                    self.state = SeqState::Streaming;
                    FirstStep::Start(f, Err(e))
                },
            },
            _ => {
                self.state = cur;
                FirstStep::End
            },
        }
    }

    /// Takes what the downstream sequence reported and returns what to report:
    /// the event itself while streaming, the end once finished.
    pub fn on_downstream<V, G>(&mut self, ev: Poll<V, G>) -> (r: Poll<V, G>)
        requires
            !(old(self).state() is AwaitingFirst),
        ensures
            final(self).state() == old(self).state(),
            r == downstream_report(old(self).state(), ev),
            seq_move(old(self).state(), final(self).state(), false),
    {
        match self.state {
            SeqState::Streaming => ev,
            _ => Poll::End,
        }
    }
}

} // verus!
