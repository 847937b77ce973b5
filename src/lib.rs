//! Composable operators over pull-based sequences, written as state machines.
//!
//! Each combinator is driven one upstream event at a time: its driver polls the
//! upstream sequence, hands what it reported to the machine, and carries out the
//! step that the machine returns.
pub mod filter_fold;
pub mod poll;
pub mod sequence;

pub use filter_fold::{FilterFold, FoldState, FoldStep};
pub use poll::Poll;
pub use sequence::{FirstStep, SeqState, Sequence};
