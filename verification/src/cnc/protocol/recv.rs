//! The receiving side of the controller connection: bytes read from the
//! socket are cut into lines, which come out one per poll.
use vstd::prelude::*;
use vstd::utf8::{decode_utf8, valid_utf8};
use crate::encoding::utf8_string;
use crate::text::{split_on, split_text, string_views};

verus! {

/// The lines received and not yet handed out, oldest first.
pub struct ReceiveBuffer {
    commands: Vec<String>,
}

/// What one read from the socket gave.
pub enum ReadOutcome {
    /// The read failed.
    Failed,
    /// These bytes arrived (possibly none, at the end of the stream).
    Data(Vec<u8>),
    /// Nothing is available yet.
    NotReady,
}

/// What a poll of the receiver yields.
pub enum PollOutcome {
    /// The stream has ended.
    Finished,
    /// The next line.
    Item(String),
    /// No line is available yet.
    NotReady,
}

/// The abstract content of a poll's outcome.
pub enum PollView {
    Finished,
    Item(Seq<char>),
    NotReady,
}

impl View for PollOutcome {
    type V = PollView;

    open spec fn view(&self) -> PollView {
        match self {
            PollOutcome::Finished => PollView::Finished,
            PollOutcome::Item(s) => PollView::Item(s@),
            PollOutcome::NotReady => PollView::NotReady,
        }
    }
}

impl View for ReceiveBuffer {
    type V = Seq<Seq<char>>;

    closed spec fn view(&self) -> Seq<Seq<char>> {
        string_views(self.commands@)
    }
}

/// The pending lines after a read: the pieces of the received text between
/// newlines are queued behind the ones already pending.
pub open spec fn queued_after(pending: Seq<Seq<char>>, read: ReadOutcome) -> Seq<Seq<char>> {
    match read {
        ReadOutcome::Data(bytes) => pending + split_on(decode_utf8(bytes@), '\n'),
        _ => pending,
    }
}

/// The outcome of a poll and the lines still pending after it. A failed
/// read ends the stream; otherwise the oldest pending line comes out, if
/// there is one.
pub open spec fn poll_result(pending: Seq<Seq<char>>, read: ReadOutcome) -> (PollView, Seq<Seq<char>>) {
    match read {
        ReadOutcome::Failed => (PollView::Finished, pending),
        _ => {
            let queued = queued_after(pending, read);
            if queued.len() == 0 {
                (PollView::NotReady, queued)
            } else {
                (PollView::Item(queued[0]), queued.drop_first())
            }
        },
    }
}

/// Whether the read holds text: received bytes must be valid UTF-8.
pub open spec fn readable(read: ReadOutcome) -> bool {
    read matches ReadOutcome::Data(bytes) ==> valid_utf8(bytes@)
}

impl ReceiveBuffer {
    /// An empty buffer.
    pub fn new() -> (r: Self)
        ensures
            r@ == Seq::<Seq<char>>::empty(),
    {
        let r = ReceiveBuffer { commands: Vec::new() };
        assert(r@ =~= Seq::<Seq<char>>::empty());
        r
    }

    /// Takes the outcome of one read and yields the next line, if any.
    pub fn poll_next(&mut self, read: ReadOutcome) -> (outcome: PollOutcome)
        requires
            readable(read),
        ensures
            (outcome@, final(self)@) == poll_result(old(self)@, read),
    {
        match read {
            ReadOutcome::Failed => {
                return PollOutcome::Finished;
            },
            ReadOutcome::Data(bytes) => {
                let ghost b = bytes@;
                let text = match utf8_string(bytes) {
                    Some(t) => t,
                    None => {
                        return PollOutcome::Finished;
                    },
                };
                let lines = split_text(text.as_str(), '\n');
                self.push_lines(lines);
                assert(self@ == queued_after(old(self)@, ReadOutcome::Data(bytes)));
            },
            ReadOutcome::NotReady => {},
        }
        if self.commands.len() == 0 {
            PollOutcome::NotReady
        } else {
            let ghost before = self@;
            let first = self.commands.remove(0);
            assert(self@ =~= before.drop_first());
            PollOutcome::Item(first)
        }
    }

    fn push_lines(&mut self, lines: Vec<String>)
        ensures
            final(self)@ == old(self)@ + string_views(lines@),
    {
        let mut i: usize = 0;
        while i < lines.len()
            invariant
                i <= lines@.len(),
                self@ == old(self)@ + string_views(lines@).take(i as int),
            decreases lines@.len() - i,
        {
            let ghost before = self@;
            self.commands.push(lines[i].clone());
            assert(self@ =~= before.push(lines@[i as int]@));
            i = i + 1;
            assert(string_views(lines@).take(i as int) =~= string_views(lines@).take(i - 1).push(
                lines@[i - 1]@,
            ));
        }
        assert(string_views(lines@).take(lines@.len() as int) =~= string_views(lines@));
    }
}

/// A poll loses no line: the line it yields followed by those still
/// pending are exactly the lines queued after the read; a poll that yields
/// nothing leaves the pending lines as they were.
pub proof fn lemma_poll_keeps_lines(pending: Seq<Seq<char>>, read: ReadOutcome)
    ensures
        ({
            let (outcome, rest) = poll_result(pending, read);
            match outcome {
                PollView::Item(line) => seq![line] + rest == queued_after(pending, read),
                PollView::NotReady => rest == pending && queued_after(pending, read).len() == 0,
                PollView::Finished => rest == pending,
            }
        }),
{
    let (outcome, rest) = poll_result(pending, read);
    if let PollView::Item(line) = outcome {
        let q = queued_after(pending, read);
        assert(seq![line] + rest =~= q);
    }
    if let PollView::NotReady = outcome {
        assert(pending.len() == 0 || !(read is Failed));
        assert(rest =~= pending);
    }
}

/// The lines that one read queues, joined again with newlines, are the text
/// that was received, and none of them holds a newline.
pub proof fn lemma_chunk_lines_rejoin(pending: Seq<Seq<char>>, bytes: Vec<u8>)
    ensures
        ({
            let added = queued_after(pending, ReadOutcome::Data(bytes)).skip(pending.len() as int);
            &&& crate::text::join_with(added, '\n') == decode_utf8(bytes@)
            &&& forall|i: int| 0 <= i < added.len() ==> !(#[trigger] added[i]).contains('\n')
        }),
{
    let text = decode_utf8(bytes@);
    let added = queued_after(pending, ReadOutcome::Data(bytes)).skip(pending.len() as int);
    assert(added =~= split_on(text, '\n'));
    crate::text::lemma_split_join(text, '\n');
    crate::text::lemma_split_pieces_free_of_sep(text, '\n');
}

/// The lines that a run of reads delivers, in arrival order: the pieces
/// between newlines of each received text.
pub open spec fn delivered_lines(reads: Seq<ReadOutcome>) -> Seq<Seq<char>>
    decreases reads.len(),
{
    if reads.len() == 0 {
        Seq::empty()
    } else {
        queued_after(delivered_lines(reads.drop_last()), reads.last())
    }
}

/// A run of polls, one per read, from the given pending lines: the lines
/// yielded, in order, and the lines still pending at the end.
pub open spec fn poll_run(pending: Seq<Seq<char>>, reads: Seq<ReadOutcome>) -> (
    Seq<Seq<char>>,
    Seq<Seq<char>>,
)
    decreases reads.len(),
{
    if reads.len() == 0 {
        (Seq::empty(), pending)
    } else {
        let (yielded, rest) = poll_run(pending, reads.drop_last());
        let (outcome, after) = poll_result(rest, reads.last());
        match outcome {
            PollView::Item(line) => (yielded.push(line), after),
            _ => (yielded, after),
        }
    }
}

/// Whether no line holds a newline.
pub open spec fn newline_free(lines: Seq<Seq<char>>) -> bool {
    forall|i: int| 0 <= i < lines.len() ==> !(#[trigger] lines[i]).contains('\n')
}

/// Over any run of polls, lines come out in the order they arrived, none
/// lost and none repeated: the lines yielded followed by those still
/// pending are the lines that were pending followed by every line the
/// reads delivered. Starting without newlines in the pending lines, no
/// yielded or pending line holds a newline.
pub proof fn lemma_run_keeps_lines(pending: Seq<Seq<char>>, reads: Seq<ReadOutcome>)
    ensures
        poll_run(pending, reads).0 + poll_run(pending, reads).1 == pending + delivered_lines(reads),
        newline_free(pending) ==> newline_free(poll_run(pending, reads).0) && newline_free(
            poll_run(pending, reads).1,
        ),
    decreases reads.len(),
{
    if reads.len() == 0 {
        assert(Seq::<Seq<char>>::empty() + pending =~= pending + Seq::<Seq<char>>::empty());
    } else {
        let earlier = reads.drop_last();
        let read = reads.last();
        lemma_run_keeps_lines(pending, earlier);
        let (yielded, rest) = poll_run(pending, earlier);
        let (outcome, after) = poll_result(rest, read);
        lemma_poll_keeps_lines(rest, read);
        let added = match read {
            ReadOutcome::Data(bytes) => split_on(decode_utf8(bytes@), '\n'),
            _ => Seq::<Seq<char>>::empty(),
        };
        assert(queued_after(rest, read) =~= rest + added);
        assert(delivered_lines(reads) =~= delivered_lines(earlier) + added);
        assert((yielded + rest) + added =~= yielded + (rest + added));
        assert((pending + delivered_lines(earlier)) + added =~= pending + (delivered_lines(earlier)
            + added));
        match outcome {
            PollView::Item(line) => {
                assert(poll_run(pending, reads) == (yielded.push(line), after));
                assert(yielded.push(line) + after =~= yielded + (seq![line] + after));
            },
            PollView::NotReady => {
                assert(poll_run(pending, reads) == (yielded, after));
                assert(rest + added =~= after);
            },
            PollView::Finished => {
                assert(poll_run(pending, reads) == (yielded, after));
                assert(added =~= Seq::<Seq<char>>::empty());
                assert(rest + added =~= after);
            },
        }
        assert(poll_run(pending, reads).0 + poll_run(pending, reads).1 =~= pending
            + delivered_lines(reads));
        if newline_free(pending) {
            if let ReadOutcome::Data(bytes) = read {
                crate::text::lemma_split_pieces_free_of_sep(decode_utf8(bytes@), '\n');
            }
            let all = poll_run(pending, reads).0 + poll_run(pending, reads).1;
            assert(newline_free(yielded + rest));
            assert forall|i: int| 0 <= i < all.len() implies !(#[trigger] all[i]).contains('\n') by {
                let whole = pending + delivered_lines(reads);
                assert(all[i] == whole[i]);
                if i >= pending.len() + delivered_lines(earlier).len() {
                    assert(whole[i] == added[i - pending.len() - delivered_lines(earlier).len()]);
                } else {
                    assert(whole[i] == (pending + delivered_lines(earlier))[i]);
                    assert((pending + delivered_lines(earlier))[i] == (yielded + rest)[i]);
                }
            }
            let ys = poll_run(pending, reads).0;
            let ps = poll_run(pending, reads).1;
            assert forall|i: int| 0 <= i < ys.len() implies !(#[trigger] ys[i]).contains('\n') by {
                assert(ys[i] == all[i]);
            }
            assert forall|i: int| 0 <= i < ps.len() implies !(#[trigger] ps[i]).contains('\n') by {
                assert(ps[i] == all[ys.len() + i]);
            }
        }
    }
}

} // verus!
