//! The sending side of the controller connection: queued commands are
//! written out oldest first.
use vstd::prelude::*;
use std::collections::VecDeque;
use crate::text::string_views;

verus! {

/// The commands queued for writing, oldest first.
pub struct SendBuffer {
    buffer: VecDeque<String>,
}

impl View for SendBuffer {
    type V = Seq<Seq<char>>;

    closed spec fn view(&self) -> Seq<Seq<char>> {
        string_views(self.buffer@)
    }
}

/// What one write to the socket gave.
#[derive(Debug, PartialEq, Eq, Structural, Clone, Copy)]
pub enum WriteOutcome {
    /// This many bytes were written.
    Written(usize),
    /// The write failed.
    Failed,
    /// The socket cannot take bytes yet.
    NotReady,
}

/// The state of a flush.
#[derive(Debug, PartialEq, Eq, Structural, Clone, Copy)]
pub enum FlushStatus {
    /// Every queued command was written.
    Done,
    /// A write failed.
    Failed,
    /// A write could not proceed yet.
    NotReady,
}

/// What to do after writing one command.
#[derive(Debug, PartialEq, Eq, Structural, Clone, Copy)]
pub enum SendStep {
    /// Go on with the next command; `complete` tells whether all of this
    /// command's bytes were written (a short write is only reported).
    Continue { complete: bool },
    /// Stop the flush with this status; the command is dropped.
    Stop(FlushStatus),
}

/// What to do when the sink is closed, given the final flush.
#[derive(Debug, PartialEq, Eq, Structural, Clone, Copy)]
pub enum CloseStep {
    /// Every command went out: shut the socket's writing half down.
    Shutdown,
    /// The flush did not finish: report its status.
    Finish(FlushStatus),
}

impl SendBuffer {
    /// An empty queue.
    pub fn new() -> (s: Self)
        ensures
            s@ == Seq::<Seq<char>>::empty(),
    {
        let s = SendBuffer { buffer: VecDeque::new() };
        assert(s@ =~= Seq::<Seq<char>>::empty());
        s
    }

    /// Queues a command behind the others.
    pub fn start_send(&mut self, item: String)
        ensures
            final(self)@ == old(self)@.push(item@),
    {
        let ghost before = self.buffer@;
        self.buffer.push_back(item);
        assert(string_views(self.buffer@) =~= string_views(before).push(item@));
    }

    /// Takes the oldest queued command out for writing.
    pub fn next_item(&mut self) -> (item: Option<String>)
        ensures
            old(self)@.len() == 0 ==> item is None && final(self)@ == old(self)@,
            old(self)@.len() > 0 ==> (item matches Some(i) && i@ == old(self)@[0] && final(self)@
                == old(self)@.drop_first()),
    {
        let ghost before = self.buffer@;
        let item = self.buffer.pop_front();
        assert(string_views(self.buffer@) =~= if before.len() > 0 {
            string_views(before).drop_first()
        } else {
            string_views(before)
        });
        item
    }
}

/// The step after writing a command of `item_len` bytes.
pub open spec fn step_after(item_len: usize, outcome: WriteOutcome) -> SendStep {
    match outcome {
        WriteOutcome::Written(size) => SendStep::Continue { complete: size == item_len },
        WriteOutcome::Failed => SendStep::Stop(FlushStatus::Failed),
        WriteOutcome::NotReady => SendStep::Stop(FlushStatus::NotReady),
    }
}

/// Decides how a flush goes on after writing a command of `item_len` bytes.
pub fn send_all_step(item_len: usize, outcome: WriteOutcome) -> (step: SendStep)
    ensures
        step == step_after(item_len, outcome),
{
    match outcome {
        WriteOutcome::Written(size) => SendStep::Continue { complete: size == item_len },
        WriteOutcome::Failed => SendStep::Stop(FlushStatus::Failed),
        WriteOutcome::NotReady => SendStep::Stop(FlushStatus::NotReady),
    }
}

/// Decides how closing goes on after the final flush: only a finished
/// flush shuts the socket down.
pub fn poll_close(flush: FlushStatus) -> (step: CloseStep)
    ensures
        step == (match flush {
            FlushStatus::Done => CloseStep::Shutdown,
            other => CloseStep::Finish(other),
        }),
{
    match flush {
        FlushStatus::Done => CloseStep::Shutdown,
        other => CloseStep::Finish(other),
    }
}

/// Queuing a command does not change which command is written next, and
/// the queued command stays behind the others: commands go out in the
/// order they were queued.
pub proof fn lemma_queue_fifo(queue: Seq<Seq<char>>, item: Seq<char>)
    ensures
        queue.len() == 0 ==> queue.push(item)[0] == item && queue.push(item).drop_first()
            == queue,
        queue.len() > 0 ==> queue.push(item)[0] == queue[0] && queue.push(item).drop_first()
            == queue.drop_first().push(item),
{
    if queue.len() == 0 {
        assert(queue.push(item).drop_first() =~= queue);
    } else {
        assert(queue.push(item).drop_first() =~= queue.drop_first().push(item));
    }
}

} // verus!
