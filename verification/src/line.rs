//! Reading one line, a byte at a time.

use vstd::prelude::*;
use crate::error::BitcoreError;
use crate::exact::EMPTY_READ_PAUSE_MS;
use crate::text::push_char;
use crate::time::TimeSpan;

verus! {

/// The byte that ends a line.
pub const LINE_FEED: u8 = 10;

/// The byte that is left out of a line.
pub const CARRIAGE_RETURN: u8 = 13;

/// What a line read is waiting for.
#[derive(Clone, Copy, Debug, PartialEq, Eq, Structural)]
pub enum LinePhase {
    /// The read is over.
    Idle,
    /// The time since the read began, before another byte is asked for.
    AwaitClock,
    /// The result of one guarded read of a single byte.
    AwaitRead,
    /// The end of a sleep.
    AwaitSleep,
    /// The time since the read began, after an empty line has ended.
    AwaitLastClock,
}

/// What the caller reports back to a line read.
#[derive(Debug, PartialEq, Eq)]
pub enum LineEvent {
    /// The time that has passed since the line read began.
    Elapsed(TimeSpan),
    /// The result of one guarded read into a buffer of one byte, and the
    /// byte in that buffer after it.
    Read { outcome: Result<usize, BitcoreError>, byte: u8 },
    /// The sleep is over.
    Slept,
}

/// What a line read asks the caller to do next.
#[derive(Debug, PartialEq, Eq)]
pub enum LineAction {
    /// Report the time that has passed since the line read began.
    CheckClock,
    /// Do one guarded read into a buffer of one byte.
    ReadByte,
    /// Sleep this long.
    Sleep(TimeSpan),
    /// The line read is over, with this result.
    Finish(Result<String, BitcoreError>),
}

/// Reading a line as a state machine.
#[derive(Debug)]
pub struct LineReader {
    /// The characters gathered so far.
    pub line: String,
    /// Time allowed for the whole line.
    pub timeout: TimeSpan,
    /// What the line read is waiting for.
    pub phase: LinePhase,
}

/// The line after one more byte has arrived that is no line feed: a carriage
/// return leaves it as it is, any other byte is added as the character with
/// that code.
pub open spec fn absorbed(line: Seq<char>, byte: u8) -> Seq<char> {
    if byte == 13u8 {
        line
    } else {
        line.push(byte as char)
    }
}

/// The line that a run of bytes amounts to: the bytes before the first line
/// feed, carriage returns left out, each as the character with its code.
pub open spec fn line_of(bytes: Seq<u8>) -> Seq<char>
    decreases bytes.len(),
{
    if bytes.len() == 0 || bytes.first() == 10u8 {
        Seq::empty()
    } else if bytes.first() == 13u8 {
        line_of(bytes.drop_first())
    } else {
        seq![bytes.first() as char] + line_of(bytes.drop_first())
    }
}

/// What is gathered when `bytes`, none of them a line feed, arrive one after
/// the other behind `line`.
pub open spec fn gathered(line: Seq<char>, bytes: Seq<u8>) -> Seq<char>
    decreases bytes.len(),
{
    if bytes.len() == 0 {
        line
    } else {
        gathered(absorbed(line, bytes.first()), bytes.drop_first())
    }
}

/// What a line reader holds, the line as the characters it is made of.
pub struct LineState {
    /// The characters gathered so far.
    pub line: Seq<char>,
    /// Time allowed for the whole line.
    pub timeout: TimeSpan,
    /// What the line read is waiting for.
    pub phase: LinePhase,
}

impl View for LineReader {
    type V = LineState;

    open spec fn view(&self) -> LineState {
        LineState { line: self.line@, timeout: self.timeout, phase: self.phase }
    }
}

impl LineState {
    /// A line read with `timeout` allowed, as it begins: nothing gathered,
    /// and the clock to be looked at.
    pub open spec fn fresh(timeout: TimeSpan) -> LineState {
        LineState { line: Seq::empty(), timeout, phase: LinePhase::AwaitClock }
    }

    /// After an empty line has ended, the line is empty.
    pub open spec fn wf(&self) -> bool {
        self.phase == LinePhase::AwaitLastClock ==> self.line.len() == 0
    }

    /// Whether `event` is the report that the line read is waiting for.
    pub open spec fn accepts(&self, event: &LineEvent) -> bool {
        match *event {
            LineEvent::Elapsed(_) => self.phase == LinePhase::AwaitClock || self.phase
                == LinePhase::AwaitLastClock,
            LineEvent::Read { .. } => self.phase == LinePhase::AwaitRead,
            LineEvent::Slept => self.phase == LinePhase::AwaitSleep,
        }
    }

    /// Whether the line read ends at `event` by handing out what it has
    /// gathered: at a line feed behind a line that holds something, at a
    /// clock that shows no time left while the line holds something, and at
    /// the clock looked at after an empty line, if it shows time left.
    pub open spec fn hands_out_at(&self, event: &LineEvent) -> bool {
        match *event {
            LineEvent::Elapsed(elapsed) => if elapsed.nanos < self.timeout.nanos {
                self.phase != LinePhase::AwaitClock
            } else {
                self.line.len() > 0
            },
            LineEvent::Read { outcome: Ok(count), byte } => count > 0 && byte == 10u8
                && self.line.len() > 0,
            _ => false,
        }
    }

    /// The characters that the reader holds after `event`: none once the
    /// line is handed out, one more after a byte that is neither line feed
    /// nor carriage return, else the same.
    pub open spec fn line_after(&self, event: &LineEvent) -> Seq<char> {
        if self.hands_out_at(event) {
            Seq::empty()
        } else {
            match *event {
                LineEvent::Read { outcome: Ok(count), byte } => if count == 0 || byte == 10u8 {
                    self.line
                } else {
                    absorbed(self.line, byte)
                },
                _ => self.line,
            }
        }
    }

    /// What the line read waits for after `event`.
    pub open spec fn phase_after(&self, event: &LineEvent) -> LinePhase {
        match *event {
            LineEvent::Elapsed(elapsed) => if self.phase == LinePhase::AwaitClock && elapsed.nanos
                < self.timeout.nanos {
                LinePhase::AwaitRead
            } else {
                LinePhase::Idle
            },
            LineEvent::Read { outcome: Ok(count), byte } => if count == 0 {
                LinePhase::AwaitSleep
            } else if byte != 10u8 {
                LinePhase::AwaitClock
            } else if self.line.len() == 0 {
                LinePhase::AwaitLastClock
            } else {
                LinePhase::Idle
            },
            LineEvent::Read { outcome: Err(_), .. } => LinePhase::Idle,
            LineEvent::Slept => LinePhase::AwaitClock,
        }
    }

    /// The line read after `event`.
    pub open spec fn next(&self, event: &LineEvent) -> LineState {
        LineState {
            line: self.line_after(event),
            timeout: self.timeout,
            phase: self.phase_after(event),
        }
    }

    /// Whether `action` is the line read's answer to `event`.
    ///
    /// While time is left one byte after another is read. A read that brings
    /// nothing is followed by a short sleep, and one that fails ends the
    /// operation with its error. A line feed ends the line: a line that
    /// holds something is handed out at once, an empty one only if the clock
    /// then shows that time is left, else the operation times out. When the
    /// time allowed has passed before a line feed, what was gathered is
    /// handed out if it is anything, else the operation times out.
    pub open spec fn answers(&self, event: &LineEvent, action: &LineAction) -> bool {
        if self.hands_out_at(event) {
            *action matches LineAction::Finish(Ok(text)) && text@ == self.line
        } else {
            match *event {
                LineEvent::Elapsed(elapsed) => if elapsed.nanos < self.timeout.nanos {
                    *action == LineAction::ReadByte
                } else {
                    *action == LineAction::Finish(Err(BitcoreError::timed_out(self.timeout)))
                },
                LineEvent::Read { outcome: Ok(count), .. } => if count == 0 {
                    *action == LineAction::Sleep(TimeSpan { nanos: 1_000_000 })
                } else {
                    *action == LineAction::CheckClock
                },
                LineEvent::Read { outcome: Err(error), .. } => *action == LineAction::Finish(
                    Err(error),
                ),
                LineEvent::Slept => *action == LineAction::CheckClock,
            }
        }
    }

    /// Whether the line read, told `events` one after the other, was
    /// waiting for each of them when it came.
    pub open spec fn runs(&self, events: Seq<LineEvent>) -> bool
        decreases events.len(),
    {
        events.len() == 0 || (self.runs(events.drop_last()) && self.after(
            events.drop_last(),
        ).accepts(&events.last()))
    }

    /// The line read after `events`, told one after the other.
    pub open spec fn after(&self, events: Seq<LineEvent>) -> LineState
        decreases events.len(),
    {
        if events.len() == 0 {
            *self
        } else {
            self.after(events.drop_last()).next(&events.last())
        }
    }
}

/// The bytes that the reads among `events` brought, in their order.
pub open spec fn brought(events: Seq<LineEvent>) -> Seq<u8>
    decreases events.len(),
{
    if events.len() == 0 {
        Seq::empty()
    } else {
        match events.last() {
            LineEvent::Read { outcome: Ok(count), byte } => if count > 0 {
                brought(events.drop_last()).push(byte)
            } else {
                brought(events.drop_last())
            },
            _ => brought(events.drop_last()),
        }
    }
}

/// Whether `event` leaves a line read with `timeout` allowed to go on: a
/// look at the clock that shows time left, a read that did not fail, the
/// end of a sleep.
pub open spec fn lets_go_on(event: LineEvent, timeout: TimeSpan) -> bool {
    match event {
        LineEvent::Elapsed(elapsed) => elapsed.nanos < timeout.nanos,
        LineEvent::Read { outcome: Err(_), .. } => false,
        _ => true,
    }
}

/// Whether every one of `events` shows time left, where it is a look at the
/// clock, and no failure, where it is a read. Reads that bring nothing, and
/// the sleeps after them, may be among them.
pub open spec fn in_time(events: Seq<LineEvent>, timeout: TimeSpan) -> bool {
    forall|i: int| 0 <= i < events.len() ==> lets_go_on(#[trigger] events[i], timeout)
}

/// Whether none of `bytes` is a line feed.
pub open spec fn unbroken(bytes: Seq<u8>) -> bool {
    forall|i: int| 0 <= i < bytes.len() ==> #[trigger] bytes[i] != 10u8
}

/// Whether `text` holds neither carriage return nor line feed.
pub open spec fn free_of_line_endings(text: Seq<char>) -> bool {
    forall|i: int| 0 <= i < text.len() ==> #[trigger] text[i] != '\r' && text[i] != '\n'
}

impl LineReader {
    /// Begins a line read with `timeout` allowed for the whole line. It
    /// starts at the clock.
    pub fn begin(timeout: TimeSpan) -> (started: (LineReader, LineAction))
        ensures
            started.1 == LineAction::CheckClock,
            started.0@ == LineState::fresh(timeout),
    {
        (
            LineReader { line: String::new(), timeout, phase: LinePhase::AwaitClock },
            LineAction::CheckClock,
        )
    }

    /// Whether `event` is the report that the line read is waiting for.
    pub fn expects(&self, event: &LineEvent) -> (expected: bool)
        ensures
            expected == self@.accepts(event),
    {
        match event {
            LineEvent::Elapsed(_) => self.phase == LinePhase::AwaitClock || self.phase
                == LinePhase::AwaitLastClock,
            LineEvent::Read { .. } => self.phase == LinePhase::AwaitRead,
            LineEvent::Slept => self.phase == LinePhase::AwaitSleep,
        }
    }

    /// Hands out what was gathered and leaves the reader with an empty line.
    fn take_line(&mut self) -> (text: String)
        ensures
            text@ == old(self).line@,
            final(self).timeout == old(self).timeout,
            final(self).phase == old(self).phase,
            final(self).line@ == Seq::<char>::empty(),
    {
        let mut text = String::new();
        core::mem::swap(&mut self.line, &mut text);
        text
    }

    /// Takes the caller's report and decides what comes next.
    pub fn step(&mut self, event: LineEvent) -> (action: LineAction)
        requires
            old(self)@.accepts(&event),
        ensures
            old(self)@.answers(&event, &action),
            final(self)@ == old(self)@.next(&event),
            old(self)@.wf() ==> final(self)@.wf(),
    {
        match event {
            LineEvent::Elapsed(elapsed) => {
                if elapsed.shorter_than(&self.timeout) {
                    if self.phase == LinePhase::AwaitClock {
                        self.phase = LinePhase::AwaitRead;
                        LineAction::ReadByte
                    } else {
                        self.phase = LinePhase::Idle;
                        LineAction::Finish(Ok(self.take_line()))
                    }
                } else {
                    self.phase = LinePhase::Idle;
                    if self.line.as_str().is_empty() {
                        LineAction::Finish(Err(BitcoreError::timeout_after(self.timeout)))
                    } else {
                        LineAction::Finish(Ok(self.take_line()))
                    }
                }
            },
            LineEvent::Read { outcome: Ok(count), byte } => {
                if count == 0 {
                    self.phase = LinePhase::AwaitSleep;
                    LineAction::Sleep(TimeSpan::from_millis(EMPTY_READ_PAUSE_MS))
                } else if byte == LINE_FEED {
                    if self.line.as_str().is_empty() {
                        self.phase = LinePhase::AwaitLastClock;
                        LineAction::CheckClock
                    } else {
                        self.phase = LinePhase::Idle;
                        LineAction::Finish(Ok(self.take_line()))
                    }
                } else {
                    if byte != CARRIAGE_RETURN {
                        push_char(&mut self.line, byte as char);
                    }
                    self.phase = LinePhase::AwaitClock;
                    LineAction::CheckClock
                }
            },
            LineEvent::Read { outcome: Err(error), .. } => {
                self.phase = LinePhase::Idle;
                LineAction::Finish(Err(error))
            },
            LineEvent::Slept => {
                self.phase = LinePhase::AwaitClock;
                LineAction::CheckClock
            },
        }
    }
}

/// Gathering byte by byte gives the line: when `bytes` hold no line feed
/// and one follows them, what is gathered from them behind `line` is `line`
/// and then the line that the whole run amounts to, whatever comes after the
/// line feed.
pub proof fn gathering_gives_the_line(line: Seq<char>, bytes: Seq<u8>, rest: Seq<u8>)
    requires
        unbroken(bytes),
    ensures
        gathered(line, bytes) == line + line_of(bytes + seq![10u8] + rest),
    decreases bytes.len(),
{
    let whole = bytes + seq![10u8] + rest;
    if bytes.len() == 0 {
        assert(whole.first() == 10u8);
        assert(line + Seq::<char>::empty() =~= line);
    } else {
        let tail = bytes.drop_first();
        assert(whole.first() == bytes.first());
        assert(whole.drop_first() =~= tail + seq![10u8] + rest);
        assert(bytes[0] != 10u8);
        assert forall|i: int| 0 <= i < tail.len() implies #[trigger] tail[i] != 10u8 by {
            assert(tail[i] == bytes[i + 1]);
        }
        gathering_gives_the_line(absorbed(line, bytes.first()), tail, rest);
        if bytes.first() != 13u8 {
            assert(line.push(bytes.first() as char) + line_of(tail + seq![10u8] + rest) =~= line
                + (seq![bytes.first() as char] + line_of(tail + seq![10u8] + rest)));
        }
    }
}

/// The line that a run of bytes amounts to holds neither carriage return
/// nor line feed.
pub proof fn a_line_holds_no_line_ending(bytes: Seq<u8>)
    ensures
        free_of_line_endings(line_of(bytes)),
    decreases bytes.len(),
{
    if bytes.len() > 0 && bytes.first() != 10u8 {
        let tail = bytes.drop_first();
        a_line_holds_no_line_ending(tail);
        if bytes.first() != 13u8 {
            let head = bytes.first() as char;
            assert(head as u32 == bytes.first() as u32);
            assert('\r' as u32 == 13 && '\n' as u32 == 10);
            assert forall|i: int| 0 <= i < line_of(bytes).len() implies #[trigger] line_of(
                bytes,
            )[i] != '\r' && line_of(bytes)[i] != '\n' by {
                if i > 0 {
                    assert(line_of(bytes)[i] == line_of(tail)[i - 1]);
                }
            }
        }
    }
}

/// A byte more is gathered behind what the bytes before it gave.
pub proof fn gathering_continues(line: Seq<char>, bytes: Seq<u8>, byte: u8)
    ensures
        gathered(line, bytes.push(byte)) == absorbed(gathered(line, bytes), byte),
    decreases bytes.len(),
{
    let more = bytes.push(byte);
    if bytes.len() == 0 {
        assert(more.first() == byte);
        assert(more.drop_first() =~= Seq::<u8>::empty());
        assert(gathered(absorbed(line, byte), more.drop_first()) == absorbed(line, byte));
    } else {
        assert(more.first() == bytes.first());
        assert(more.drop_first() =~= bytes.drop_first().push(byte));
        gathering_continues(absorbed(line, bytes.first()), bytes.drop_first(), byte);
    }
}

/// While time is left, the bytes that arrive are gathered in their order.
/// After any reports that let the line read go on, whatever the clock
/// showed below the time allowed and however many reads brought nothing, as
/// long as no line feed was among the bytes brought, the reader holds what
/// was gathered from those bytes and has not ended.
pub proof fn gathering_in_time(timeout: TimeSpan, events: Seq<LineEvent>)
    requires
        LineState::fresh(timeout).runs(events),
        in_time(events, timeout),
        unbroken(brought(events)),
    ensures
        LineState::fresh(timeout).after(events).line == gathered(Seq::empty(), brought(events)),
        LineState::fresh(timeout).after(events).timeout == timeout,
        LineState::fresh(timeout).after(events).phase == LinePhase::AwaitClock
            || LineState::fresh(timeout).after(events).phase == LinePhase::AwaitRead
            || LineState::fresh(timeout).after(events).phase == LinePhase::AwaitSleep,
    decreases events.len(),
{
    if events.len() > 0 {
        let fresh = LineState::fresh(timeout);
        let front = events.drop_last();
        let last = events.last();
        assert(lets_go_on(events[events.len() - 1], timeout));
        assert forall|i: int| 0 <= i < front.len() implies lets_go_on(
            #[trigger] front[i],
            timeout,
        ) by {
            assert(front[i] == events[i]);
        }
        assert forall|i: int| 0 <= i < brought(front).len() implies #[trigger] brought(front)[i]
            != 10u8 by {
            assert(brought(front)[i] == brought(events)[i]);
        }
        gathering_in_time(timeout, front);
        match last {
            LineEvent::Read { outcome: Ok(count), byte } => {
                if count > 0 {
                    assert(brought(events) == brought(front).push(byte));
                    assert(brought(events)[brought(front).len() as int] == byte);
                    gathering_continues(Seq::empty(), brought(front), byte);
                }
            },
            _ => {},
        }
    }
}

/// A line that arrives in time is read as it was sent. When a line feed
/// arrives after any reports that let the line read go on, no line feed
/// among the bytes they brought, and the line that those bytes amount to
/// holds anything, the line read ends at the line feed and hands out that
/// line, which holds neither carriage return nor line feed. What may follow
/// the line feed has no part in it.
pub proof fn read_line_hands_out_the_line(
    timeout: TimeSpan,
    events: Seq<LineEvent>,
    count: usize,
    rest: Seq<u8>,
    action: LineAction,
)
    requires
        LineState::fresh(timeout).runs(events),
        in_time(events, timeout),
        unbroken(brought(events)),
        count > 0,
        LineState::fresh(timeout).after(events).phase == LinePhase::AwaitRead,
        line_of(brought(events) + seq![10u8] + rest).len() > 0,
        LineState::fresh(timeout).after(events).answers(
            &(LineEvent::Read { outcome: Ok(count), byte: 10u8 }),
            &action,
        ),
    ensures
        action matches LineAction::Finish(Ok(text)) && text@ == line_of(
            brought(events) + seq![10u8] + rest,
        ) && free_of_line_endings(text@),
        LineState::fresh(timeout).after(events).next(
            &(LineEvent::Read { outcome: Ok(count), byte: 10u8 }),
        ).phase == LinePhase::Idle,
{
    let line = line_of(brought(events) + seq![10u8] + rest);
    gathering_in_time(timeout, events);
    gathering_gives_the_line(Seq::empty(), brought(events), rest);
    assert(Seq::<char>::empty() + line =~= line);
    a_line_holds_no_line_ending(brought(events) + seq![10u8] + rest);
}

/// An empty line is settled by the clock. When a line feed arrives after
/// any reports that let the line read go on, no line feed among the bytes
/// they brought, and the line that those bytes amount to is empty, the line
/// read looks at the clock once more: it hands out the empty line if time
/// is left then, and times out if not.
pub proof fn an_empty_line_is_settled_by_the_clock(
    timeout: TimeSpan,
    events: Seq<LineEvent>,
    count: usize,
    rest: Seq<u8>,
    last: TimeSpan,
    action: LineAction,
)
    requires
        LineState::fresh(timeout).runs(events),
        in_time(events, timeout),
        unbroken(brought(events)),
        count > 0,
        LineState::fresh(timeout).after(events).phase == LinePhase::AwaitRead,
        line_of(brought(events) + seq![10u8] + rest).len() == 0,
        LineState::fresh(timeout).after(events).next(
            &(LineEvent::Read { outcome: Ok(count), byte: 10u8 }),
        ).answers(&LineEvent::Elapsed(last), &action),
    ensures
        LineState::fresh(timeout).after(events).answers(
            &(LineEvent::Read { outcome: Ok(count), byte: 10u8 }),
            &LineAction::CheckClock,
        ),
        LineState::fresh(timeout).after(events).next(
            &(LineEvent::Read { outcome: Ok(count), byte: 10u8 }),
        ).accepts(&LineEvent::Elapsed(last)),
        last.nanos < timeout.nanos ==> (action matches LineAction::Finish(Ok(text)) && text@
            == Seq::<char>::empty()),
        last.nanos >= timeout.nanos ==> action == LineAction::Finish(
            Err(BitcoreError::timed_out(timeout)),
        ),
{
    let line = line_of(brought(events) + seq![10u8] + rest);
    gathering_in_time(timeout, events);
    gathering_gives_the_line(Seq::empty(), brought(events), rest);
    assert(Seq::<char>::empty() + line =~= line);
    assert(line =~= Seq::<char>::empty());
}

/// When time runs out before a line feed, what was gathered is handed out,
/// if it is anything. When, after any reports that let the line read go on,
/// no line feed among the bytes they brought, the clock shows that the time
/// allowed has passed, the line read ends: with what it gathered from those
/// bytes, which holds neither carriage return nor line feed, or, if that is
/// nothing, with a timeout that carries the time allowed.
pub proof fn a_late_line_is_handed_out_in_part(
    timeout: TimeSpan,
    events: Seq<LineEvent>,
    late: TimeSpan,
    action: LineAction,
)
    requires
        LineState::fresh(timeout).runs(events),
        in_time(events, timeout),
        unbroken(brought(events)),
        LineState::fresh(timeout).after(events).phase == LinePhase::AwaitClock,
        late.nanos >= timeout.nanos,
        LineState::fresh(timeout).after(events).answers(&LineEvent::Elapsed(late), &action),
    ensures
        gathered(Seq::empty(), brought(events)).len() > 0 ==> (action matches LineAction::Finish(
            Ok(text),
        ) && text@ == gathered(Seq::empty(), brought(events)) && free_of_line_endings(text@)),
        gathered(Seq::empty(), brought(events)).len() == 0 ==> action == LineAction::Finish(
            Err(BitcoreError::timed_out(timeout)),
        ),
        LineState::fresh(timeout).after(events).next(&LineEvent::Elapsed(late)).phase
            == LinePhase::Idle,
{
    let bytes = brought(events);
    let line = line_of(bytes + seq![10u8]);
    gathering_in_time(timeout, events);
    gathering_gives_the_line(Seq::empty(), bytes, Seq::empty());
    assert(bytes + seq![10u8] + Seq::<u8>::empty() =~= bytes + seq![10u8]);
    assert(Seq::<char>::empty() + line =~= line);
    a_line_holds_no_line_ending(bytes + seq![10u8]);
}

} // verus!
