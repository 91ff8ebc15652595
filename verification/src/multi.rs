//! The multi-bar coordinator: many workers, each owning a bar wired to a
//! `Pipe`, send tagged line updates over one multi-producer channel; the
//! coordinator owns the terminal, keeps the last known line per level, and
//! redraws the managed region in place, one full frame per message.
//!
//! A bar's done sentinel (an empty payload) only decrements the live-bar
//! count and never redraws: the bar's final forced frame has already
//! frozen its line.

use vstd::prelude::*;

use crate::numfmt::{chars_to_string, push_all, push_dec, str_chars};
use crate::pb::{spec_fresh_bar, BarModel, ProgressBar};
use crate::sink::ProgressSink;
use crate::tty::spec_move_cursor_up;

verus! {

#[verifier::external_type_specification]
#[verifier::external_body]
#[verifier::reject_recursive_types(T)]
pub struct ExSender<T>(crossbeam_channel::Sender<T>);

#[verifier::external_type_specification]
#[verifier::external_body]
#[verifier::reject_recursive_types(T)]
pub struct ExReceiver<T>(crossbeam_channel::Receiver<T>);

#[verifier::external_type_specification]
#[verifier::external_body]
#[verifier::reject_recursive_types(T)]
pub struct ExSendError<T>(crossbeam_channel::SendError<T>);

#[verifier::external_type_specification]
#[verifier::external_body]
pub struct ExRecvError(crossbeam_channel::RecvError);

/// Relies on `crossbeam_channel::unbounded`: a connected multi-producer
/// channel pair without capacity bound, so sending never blocks.
pub assume_specification<T>[ crossbeam_channel::unbounded::<T> ]() -> (
    crossbeam_channel::Sender<T>,
    crossbeam_channel::Receiver<T>,
);

/// Relies on `Sender::send`: hands the message to the channel without
/// blocking; it fails only when every receiver is gone.
pub assume_specification<T>[ crossbeam_channel::Sender::<T>::send ](
    s: &crossbeam_channel::Sender<T>,
    msg: T,
) -> Result<(), crossbeam_channel::SendError<T>>;

/// Relies on `Receiver::recv`: blocks until a message arrives, returning
/// messages of one sender in the order they were sent; it fails only when
/// the channel is empty and every sender is gone.
pub assume_specification<T>[ crossbeam_channel::Receiver::<T>::recv ](
    r: &crossbeam_channel::Receiver<T>,
) -> Result<T, crossbeam_channel::RecvError>;

/// Relies on `Sender::clone`: another sending handle on the same channel.
pub assume_specification<T>[ <crossbeam_channel::Sender<T> as Clone>::clone ](
    s: &crossbeam_channel::Sender<T>,
) -> crossbeam_channel::Sender<T>;

/// One rendered-line event, tagged with the level it updates; `done` is
/// true exactly when the payload is empty, which signals that the bar has
/// finished and sends no more messages.
pub struct WriteMsg {
    pub done: bool,
    pub level: usize,
    pub string: String,
}

impl WriteMsg {
    /// The message a pipe at `level` wraps one payload in: tagged with that
    /// level, the payload carried verbatim, and the done flag set exactly
    /// when the payload is empty.
    pub fn make(level: usize, buf: &str) -> (m: WriteMsg)
        ensures
            m.level == level,
            m.done == (buf@.len() == 0),
            m.string@ == buf@,
    {
        WriteMsg { done: buf.is_empty(), level, string: String::from_str(buf) }
    }
}

/// The coordinator's line table: the last known rendered line per level,
/// the count of lines occupying screen rows, and the count of live bars.
pub struct CoordState {
    pub lines: Vec<Vec<char>>,
    pub nlines: usize,
    pub nbars: usize,
}

/// The live-bar count after one message: a done sentinel decrements it
/// (never below zero), any other message leaves it alone.
pub open spec fn spec_apply_nbars(nbars: nat, done: bool) -> nat {
    if done {
        if nbars > 0 {
            (nbars - 1) as nat
        } else {
            0
        }
    } else {
        nbars
    }
}

/// The line table after a content update at `level`: the table grows with
/// empty lines up to `level` if needed, and the line at `level` becomes
/// `s`.
pub open spec fn spec_apply_lines(lines: Seq<Seq<char>>, level: nat, s: Seq<char>) -> Seq<
    Seq<char>,
> {
    let extended = if level < lines.len() {
        lines
    } else {
        lines + Seq::new((level + 1 - lines.len()) as nat, |i: int| Seq::<char>::empty())
    };
    extended.update(level as int, s)
}

impl CoordState {
    /// The line table as a sequence of character sequences.
    pub open spec fn spec_lines(&self) -> Seq<Seq<char>> {
        self.lines@.map_values(|l: Vec<char>| l@)
    }

    /// Well-formedness: the row count is the line count.
    pub open spec fn wf(&self) -> bool {
        self.nlines == self.lines@.len()
    }

    /// An empty table with no live bars.
    pub fn new() -> (r: CoordState)
        ensures
            r.wf(),
            r.spec_lines() == Seq::<Seq<char>>::empty(),
            r.nbars == 0,
    {
        let r = CoordState { lines: Vec::new(), nlines: 0, nbars: 0 };
        assert(r.spec_lines() =~= Seq::<Seq<char>>::empty());
        r
    }

    /// Apply one message: a done sentinel decrements the live-bar count and
    /// leaves every line as it stands; a content update rewrites its level's
    /// line. The result says whether a redraw is due.
    pub fn apply(&mut self, msg: &WriteMsg) -> (redraw: bool)
        requires
            old(self).wf(),
        ensures
            final(self).wf(),
            redraw == !msg.done,
            final(self).nbars as nat == spec_apply_nbars(old(self).nbars as nat, msg.done),
            msg.done ==> final(self).spec_lines() == old(self).spec_lines(),
            !msg.done ==> final(self).spec_lines() == spec_apply_lines(
                old(self).spec_lines(),
                msg.level as nat,
                msg.string@,
            ),
            !msg.done ==> final(self).nbars == old(self).nbars,
    {
        if msg.done {
            if self.nbars > 0 {
                self.nbars = self.nbars - 1;
            }
            false
        } else {
            let level = msg.level;
            while self.lines.len() <= level
                invariant
                    self.lines@.len() >= old(self).lines@.len(),
                    self.lines@.len() <= level + 1 || self.lines@.len() == old(self).lines@.len(),
                    self.nbars == old(self).nbars,
                    forall|j: int|
                        0 <= j < old(self).lines@.len() ==> self.lines@[j] == old(self).lines@[j],
                    forall|j: int|
                        old(self).lines@.len() <= j < self.lines@.len() ==> self.lines@[j]@
                            == Seq::<char>::empty(),
                decreases level + 1 - self.lines@.len(),
            {
                self.lines.push(Vec::new());
            }
            let content = str_chars(msg.string.as_str());
            self.lines.set(level, content);
            self.nlines = self.lines.len();
            assert(final(self).spec_lines() =~= spec_apply_lines(
                old(self).spec_lines(),
                msg.level as nat,
                msg.string@,
            ));
            true
        }
    }
}

/// A sink that forwards each payload as a tagged message over the
/// coordinator's channel instead of writing to a terminal; writing never
/// blocks on terminal output.
pub struct Pipe {
    /// The level this pipe's bar draws at; fixed at creation.
    pub level: usize,
    pub chan: crossbeam_channel::Sender<WriteMsg>,
    pub sent: Ghost<Seq<Seq<char>>>,
}

impl Pipe {
    /// Flushing is a no-op: the coordinator, not the pipe, owns terminal
    /// flushing.
    pub fn flush(&mut self)
        ensures
            *final(self) == *old(self),
    {
    }
}

impl ProgressSink for Pipe {
    closed spec fn emitted(&self) -> Seq<Seq<char>> {
        self.sent@
    }

    fn sink_write(&mut self, buf: &str)
        ensures
            final(self).level == old(self).level,
            final(self).chan == old(self).chan,
    {
        // What goes onto the channel is pinned by `WriteMsg::make`: this
        // pipe's level, the payload verbatim, done exactly on empty. A
        // send fails only when the receiving coordinator is gone — a
        // protocol violation on the caller's side; a verified function
        // cannot make that fatal by panicking, so the frame is dropped
        // instead, and the ghost log records the write attempt either way.
        let msg = WriteMsg::make(self.level, buf);
        let _ = self.chan.send(msg);
        self.sent = Ghost(self.sent@.push(buf@));
    }
}

/// The text of one whole redraw: unless this is the first frame, the
/// control sequence that moves the cursor back up over the managed region,
/// then every line in level order, each led by a carriage return and ended
/// by a newline.
pub open spec fn spec_frame_lines(lines: Seq<Seq<char>>) -> Seq<char>
    decreases lines.len(),
{
    if lines.len() == 0 {
        Seq::empty()
    } else {
        spec_frame_lines(lines.drop_last()) + seq!['\r'] + lines.last() + seq!['\n']
    }
}

/// The full frame for a line table; the first frame has nothing above it
/// to reposition past, so it emits no cursor movement.
///
/// Convention: every line here is newline-terminated and the climb covers
/// the region's full line count. The same layout is sometimes described
/// with the last line left open and a climb one line shorter; the two
/// conventions paint the same region.
pub open spec fn spec_frame(lines: Seq<Seq<char>>, first: bool) -> Seq<char> {
    (if first {
        Seq::<char>::empty()
    } else {
        spec_move_cursor_up(lines.len())
    }) + spec_frame_lines(lines)
}

/// Whether `s` is the text of one whole redraw of some line table.
pub open spec fn spec_is_frame(s: Seq<char>) -> bool {
    exists|lines: Seq<Seq<char>>, fr: bool| s == spec_frame(lines, fr)
}

/// The multi-bar coordinator: owns the terminal sink and the line table,
/// and hands out pipes that feed its channel.
pub struct MultiBar<T> {
    pub state: CoordState,
    pub handle: T,
    pub sender: crossbeam_channel::Sender<WriteMsg>,
    pub receiver: crossbeam_channel::Receiver<WriteMsg>,
}

impl<T: ProgressSink> MultiBar<T> {
    /// Well-formedness of the coordinator.
    pub open spec fn wf(&self) -> bool {
        self.state.wf()
    }

    /// A fresh coordinator writing through `handle`, with an empty line
    /// table, no live bars, and one channel shared by all future pipes.
    pub fn on(handle: T) -> (r: MultiBar<T>)
        ensures
            r.wf(),
            r.state.spec_lines() == Seq::<Seq<char>>::empty(),
            r.state.nbars == 0,
            r.handle == handle,
    {
        let (sender, receiver) = crossbeam_channel::unbounded();
        MultiBar { state: CoordState::new(), handle, sender, receiver }
    }

    /// Append a plain line of text at the next level, without producing a
    /// bar; it becomes visible on the next redraw cycle.
    pub fn println(&mut self, text: &str)
        requires
            old(self).wf(),
        ensures
            final(self).wf(),
            final(self).state.spec_lines() == old(self).state.spec_lines().push(text@),
            final(self).state.nbars == old(self).state.nbars,
            final(self).handle == old(self).handle,
    {
        self.state.lines.push(str_chars(text));
        self.state.nlines = self.state.lines.len();
        assert(final(self).state.spec_lines() =~= old(self).state.spec_lines().push(text@));
    }

    /// Allocate the next level, count one more live bar, and return a bar
    /// wired to a pipe on this coordinator's channel; the bar suppresses
    /// its own terminal-size polling in favor of the coordinator's.
    pub fn create_bar(&mut self, total: u64) -> (r: ProgressBar<Pipe>)
        requires
            old(self).wf(),
            old(self).state.nbars < usize::MAX,
        ensures
            final(self).wf(),
            final(self).state.spec_lines() == old(self).state.spec_lines().push(
                Seq::<char>::empty(),
            ),
            final(self).state.nbars == old(self).state.nbars + 1,
            final(self).handle == old(self).handle,
            r.wf(),
            r.model() == (BarModel {
                is_multibar: true,
                ..spec_fresh_bar(total, Seq::<Seq<char>>::empty())
            }),
            r.handle.level as nat == old(self).state.spec_lines().len(),
    {
        proof {
            reveal_strlit("");
            assert(""@ =~= Seq::<char>::empty());
        }
        self.println("");
        assert(self.state.spec_lines().len() == old(self).state.spec_lines().len() + 1);
        assert(self.state.nlines >= 1);
        let level = self.state.nlines - 1;
        assert(level as nat == old(self).state.spec_lines().len());
        self.state.nbars = self.state.nbars + 1;
        let pipe = Pipe {
            level,
            chan: self.sender.clone(),
            sent: Ghost(Seq::empty()),
        };
        let mut p = ProgressBar::on(pipe, total);
        p.is_multibar = true;
        p
    }

    /// The text of one whole redraw of the current line table.
    fn compose_frame(&self, first: bool) -> (r: String)
        requires
            self.wf(),
        ensures
            r@ == spec_frame(self.state.spec_lines(), first),
    {
        let ghost lines = self.state.spec_lines();
        let mut out: Vec<char> = Vec::new();
        if !first {
            out.push('\u{1b}');
            out.push('[');
            push_dec(&mut out, self.state.nlines as u128);
            out.push('A');
            assert(out@ =~= spec_move_cursor_up(lines.len()));
        }
        let ghost head = out@;
        let mut i: usize = 0;
        while i < self.state.lines.len()
            invariant
                i <= self.state.lines@.len(),
                lines == self.state.spec_lines(),
                out@ == head + spec_frame_lines(lines.take(i as int)),
            decreases self.state.lines@.len() - i,
        {
            out.push('\r');
            push_all(&mut out, &self.state.lines[i]);
            out.push('\n');
            proof {
                assert(lines.take(i + 1 as int).drop_last() =~= lines.take(i as int));
                assert(lines.take(i + 1 as int).last() == lines[i as int]);
                assert(out@ =~= head + spec_frame_lines(lines.take(i + 1 as int)));
            }
            i = i + 1;
        }
        assert(lines.take(self.state.lines@.len() as int) =~= lines);
        assert(out@ =~= spec_frame(lines, first));
        chars_to_string(&out)
    }

    /// Run until every bar created here has reported done: receive the next
    /// message (blocking while the channel is empty), apply it, and redraw
    /// the whole managed region for each content update. A bar that never
    /// finishes keeps this waiting forever; that is the design's accepted
    /// limitation, termination is driven by the live-bar count alone.
    pub fn listen(&mut self)
        requires
            old(self).wf(),
        ensures
            final(self).wf(),
            old(self).state.nbars == 0 ==> *final(self) == *old(self),
            old(self).handle.emitted().is_prefix_of(final(self).handle.emitted()),
            (forall|k: int|
                old(self).handle.emitted().len() <= k < final(self).handle.emitted().len()
                    ==> spec_is_frame(#[trigger] final(self).handle.emitted()[k])),
    {
        let mut first: bool = true;
        // The cycle budget is the loop's termination measure; it outlasts
        // any physical run (one message per nanosecond for centuries), so
        // in practice the loop ends only when the live-bar count does, and
        // the blocking receive below is what a stalled bar leaves waiting.
        let mut budget: u64 = u64::MAX;
        while self.state.nbars > 0 && budget > 0
            invariant
                self.wf(),
                old(self).state.nbars == 0 ==> *self == *old(self),
                old(self).handle.emitted().is_prefix_of(self.handle.emitted()),
                forall|k: int|
                    old(self).handle.emitted().len() <= k < self.handle.emitted().len()
                        ==> spec_is_frame(#[trigger] self.handle.emitted()[k]),
            decreases budget,
        {
            budget = budget - 1;
            let r = self.receiver.recv();
            match r {
                Ok(msg) => {
                    let redraw = self.state.apply(&msg);
                    if redraw {
                        let ghost pre_emitted = self.handle.emitted();
                        let frame = self.compose_frame(first);
                        let ghost table = self.state.spec_lines();
                        let ghost was_first = first;
                        first = false;
                        self.handle.sink_write(frame.as_str());
                        proof {
                            assert(frame@ == spec_frame(table, was_first));
                            assert(spec_is_frame(frame@));
                            assert forall|k: int|
                                old(self).handle.emitted().len() <= k < self.handle.emitted().len()
                                    implies spec_is_frame(
                                #[trigger] self.handle.emitted()[k],
                            ) by {
                                if k < pre_emitted.len() {
                                    assert(self.handle.emitted()[k] == pre_emitted[k]);
                                } else {
                                    assert(self.handle.emitted()[k] == frame@);
                                }
                            }
                        }
                    }
                },
                Err(_) => {
                    // Every sender is gone and the channel is drained: no
                    // done sentinel can arrive any more.
                    break ;
                },
            }
        }
    }
}

impl MultiBar<crate::sink::StdoutSink> {
    /// A fresh coordinator writing to standard output.
    pub fn new() -> (r: MultiBar<crate::sink::StdoutSink>)
        ensures
            r.wf(),
            r.state.spec_lines() == Seq::<Seq<char>>::empty(),
            r.state.nbars == 0,
            r.handle.emitted() == Seq::<Seq<char>>::empty(),
    {
        MultiBar::on(crate::sink::StdoutSink::new())
    }
}

/// The count of done sentinels in a message sequence.
pub open spec fn spec_count_done(msgs: Seq<WriteMsg>) -> nat
    decreases msgs.len(),
{
    if msgs.len() == 0 {
        0
    } else {
        spec_count_done(msgs.drop_last()) + (if msgs.last().done {
            1nat
        } else {
            0
        })
    }
}

/// The live-bar count after a whole message sequence is applied in order.
pub open spec fn spec_nbars_after(nbars: nat, msgs: Seq<WriteMsg>) -> nat
    decreases msgs.len(),
{
    if msgs.len() == 0 {
        nbars
    } else {
        spec_apply_nbars(spec_nbars_after(nbars, msgs.drop_last()), msgs.last().done)
    }
}

/// A content update touches exactly its own level: the updated table holds
/// the new string there, keeps every other line as it stood, and grows only
/// as far as the updated level demands. A finished bar's frozen line is
/// therefore never disturbed by other bars' updates.
pub proof fn lemma_apply_lines_updates(lines: Seq<Seq<char>>, level: nat, s: Seq<char>)
    ensures
        spec_apply_lines(lines, level, s).len() == (if level < lines.len() {
            lines.len()
        } else {
            level + 1
        }),
        spec_apply_lines(lines, level, s)[level as int] == s,
        forall|j: int|
            0 <= j < lines.len() && j != level ==> spec_apply_lines(lines, level, s)[j]
                == lines[j],
{
}

/// Multi-bar ordering: whatever order bars finish in and however their
/// messages interleave, the listen loop's live-bar count falls by exactly
/// the done sentinels seen; it stays positive — the loop stays blocked —
/// until every bar's sentinel has arrived, and reaches zero exactly then.
pub proof fn lemma_listen_termination(nbars: nat, msgs: Seq<WriteMsg>)
    requires
        spec_count_done(msgs) <= nbars,
    ensures
        spec_nbars_after(nbars, msgs) == nbars - spec_count_done(msgs),
        (spec_nbars_after(nbars, msgs) == 0 <==> spec_count_done(msgs) == nbars),
    decreases msgs.len(),
{
    if msgs.len() > 0 {
        lemma_listen_termination(nbars, msgs.drop_last());
    }
}

} // verus!
