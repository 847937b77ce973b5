use vstd::prelude::*;

verus! {

/// What a single poll of a pull-based sequence reports.
#[derive(Debug, PartialEq, Eq)]
pub enum Poll<T, E> {
    /// Nothing is available yet; the sequence wakes its task when it can go on.
    Pending,
    /// The next item of the sequence.
    Item(T),
    /// The sequence has ended.
    End,
    /// The sequence failed.
    Failure(E),
}

} // verus!
