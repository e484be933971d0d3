//! The decisions of the layer that moves bytes: what a read on a
//! descriptor that does not block does after each thing the descriptor
//! reports, what comes of an operation that ran on a worker, and how read
//! values are shown.

use crate::error::{Error, Operation};
use vstd::prelude::*;

verus! {

/// What the descriptor reported.
#[derive(Clone, Copy, Debug, PartialEq, Eq, Structural)]
pub enum ReadEvent {
    /// It is not readable yet.
    NotReady,
    /// Waiting for it failed with an operating system code.
    WaitFailed(i32),
    /// A read gave this many bytes.
    Read(usize),
    /// A read failed with an operating system code.
    ReadFailed(i32),
    /// A read found nothing although the descriptor was reported readable.
    WouldBlock,
}

/// What the reader does next.
#[derive(Clone, Copy, Debug, PartialEq, Eq, Structural)]
pub enum ReadStep {
    /// Hand control back until the descriptor is readable.
    Pending,
    /// The read is done with this many bytes.
    Done(usize),
    /// The read failed.
    Failed(Error),
    /// Forget that the descriptor was readable and wait for it again.
    Retry,
}

/// The step that follows each report.
pub open spec fn next_step_spec(event: ReadEvent) -> ReadStep {
    match event {
        ReadEvent::NotReady => ReadStep::Pending,
        ReadEvent::WaitFailed(code) => ReadStep::Failed(Error::Os(Operation::Wait, code)),
        ReadEvent::Read(count) => ReadStep::Done(count),
        ReadEvent::ReadFailed(code) => ReadStep::Failed(Error::Os(Operation::Read, code)),
        ReadEvent::WouldBlock => ReadStep::Retry,
    }
}

/// Decides what a reader does after `event`. Only a read that would block
/// is tried again; every failure is handed on as it came.
pub fn next_step(event: ReadEvent) -> (step: ReadStep)
    ensures
        step == next_step_spec(event),
{
    match event {
        ReadEvent::NotReady => ReadStep::Pending,
        ReadEvent::WaitFailed(code) => ReadStep::Failed(Error::Os(Operation::Wait, code)),
        ReadEvent::Read(count) => ReadStep::Done(count),
        ReadEvent::ReadFailed(code) => ReadStep::Failed(Error::Os(Operation::Read, code)),
        ReadEvent::WouldBlock => ReadStep::Retry,
    }
}

/// What comes of an operation that ran on a worker: its own result where
/// the worker completed, else [`Error::TaskFailed`].
pub fn task_result<T>(joined: Option<Result<T, Error>>) -> (r: Result<T, Error>)
    ensures
        r == (match joined {
            Some(result) => result,
            None => Err(Error::TaskFailed),
        }),
{
    match joined {
        Some(result) => result,
        None => Err(Error::TaskFailed),
    }
}

/// The line of text that shows `values`: for each value its digit and a
/// space, in the order of the values, and a line feed at the end.
pub open spec fn rendered(values: Seq<bool>) -> Seq<u8> {
    digits(values).push(10u8)
}

/// For each value its digit, `1` for an active line and `0` for an
/// inactive one, and a space.
pub open spec fn digits(values: Seq<bool>) -> Seq<u8>
    decreases values.len(),
{
    if values.len() == 0 {
        Seq::empty()
    } else {
        digits(values.drop_last()).push(
            if values.last() {
                49u8
            } else {
                48u8
            },
        ).push(32u8)
    }
}

/// Renders read values as one line of text.
pub fn render_values(values: &[bool]) -> (text: Vec<u8>)
    ensures
        text@ == rendered(values@),
{
    let mut text: Vec<u8> = Vec::new();
    let mut i: usize = 0;
    while i < values.len()
        invariant
            i <= values@.len(),
            text@ == digits(values@.take(i as int)),
        decreases values@.len() - i,
    {
        proof {
            assert(values@.take(i + 1).drop_last() =~= values@.take(i as int));
        }
        text.push(if values[i] { 49 } else { 48 });
        text.push(32);
        i += 1;
    }
    proof {
        assert(values@.take(values@.len() as int) =~= values@);
    }
    text.push(10);
    text
}

} // verus!
