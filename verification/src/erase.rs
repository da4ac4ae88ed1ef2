//! The secure erase engine: a file is overwritten twice over its whole
//! length, first with `x`, then with zeros, and then removed.
//!
//! The engine decides; its caller acts. A job names the step that is due, the
//! caller performs it on the file and reports how it went, and the job moves
//! on. Any failure before the removal ends the job without removing the file.

use vstd::prelude::*;
use vstd::string::*;

verus! {

/// The byte written during the first overwrite pass: ASCII `x`.
pub const FILL_BYTE: u8 = 0x78;

/// The byte written during the second overwrite pass.
pub const ZERO_BYTE: u8 = 0;

/// The sequence of `len` copies of `byte`.
pub open spec fn uniform(byte: u8, len: nat) -> Seq<u8> {
    Seq::new(len, |i: int| byte)
}

/// A buffer of `len` copies of `byte`.
pub fn overwrite_pattern(byte: u8, len: usize) -> (buffer: Vec<u8>)
    ensures
        buffer@ == uniform(byte, len as nat),
{
    vec![byte; len]
}

/// Why a file was not erased.
#[derive(Debug, Clone, Copy, PartialEq, Eq, Structural)]
pub enum EraseFailure {
    /// The file could not be opened, measured or overwritten. It still
    /// exists, and may be partly overwritten.
    EraseError,
    /// The file was overwritten, but its name could not be removed.
    UnlinkError,
}

/// What the failure is called when it is shown to the user.
pub open spec fn failure_message(failure: EraseFailure) -> Seq<char> {
    match failure {
        EraseFailure::EraseError => "could not overwrite the file; it was not removed"@,
        EraseFailure::UnlinkError => "the file was overwritten, but could not be removed"@,
    }
}

impl EraseFailure {
    /// The message that tells the user of this failure.
    pub fn message(&self) -> (text: String)
        ensures
            text@ == failure_message(*self),
    {
        match self {
            EraseFailure::EraseError => String::from_str(
                "could not overwrite the file; it was not removed",
            ),
            EraseFailure::UnlinkError => String::from_str(
                "the file was overwritten, but could not be removed",
            ),
        }
    }
}

/// What the caller reports after it tried the step that was due.
#[derive(Debug, Clone, Copy, PartialEq, Eq, Structural)]
pub enum EraseEvent {
    /// The file is open for reading and writing, and is `len` bytes long.
    Opened { len: u64 },
    /// All bytes of the pass were written.
    Written,
    /// The name of the file was removed.
    Removed,
    /// The step failed.
    Failed,
}

/// How far a job has come.
#[derive(Debug, Clone, Copy, PartialEq, Eq, Structural)]
pub enum ErasePhase {
    /// The file is to be opened and measured.
    Opening,
    /// The file, `len` bytes long, is to be overwritten with `x`.
    Filling { len: usize },
    /// The file, `len` bytes long, is to be overwritten with zeros.
    Zeroing { len: usize },
    /// The name of the file is to be removed.
    Removing,
    /// The file is erased.
    Erased,
    /// The job ended without erasing the file.
    Failed(EraseFailure),
}

/// What a step is.
pub enum EraseStepView {
    /// Open the file for reading and writing and report its length.
    Open,
    /// Write these bytes over the file, from its first byte on.
    Overwrite(Seq<u8>),
    /// Remove the name of the file.
    Remove,
    /// Nothing is left to do: the job ended so.
    Done(Result<(), EraseFailure>),
}

/// The phase that follows `phase` when the caller reports `event`. A report
/// that is not the success of the step that was due ends the job: during the
/// removal as a failure to remove, before it as a failure to overwrite. So
/// does a file too long for a buffer of this machine.
pub open spec fn phase_after(phase: ErasePhase, event: EraseEvent) -> ErasePhase {
    match phase {
        ErasePhase::Opening => match event {
            EraseEvent::Opened { len } => if len <= usize::MAX {
                ErasePhase::Filling { len: len as usize }
            } else {
                ErasePhase::Failed(EraseFailure::EraseError)
            },
            _ => ErasePhase::Failed(EraseFailure::EraseError),
        },
        ErasePhase::Filling { len } => match event {
            EraseEvent::Written => ErasePhase::Zeroing { len },
            _ => ErasePhase::Failed(EraseFailure::EraseError),
        },
        ErasePhase::Zeroing { len } => match event {
            EraseEvent::Written => ErasePhase::Removing,
            _ => ErasePhase::Failed(EraseFailure::EraseError),
        },
        ErasePhase::Removing => match event {
            EraseEvent::Removed => ErasePhase::Erased,
            _ => ErasePhase::Failed(EraseFailure::UnlinkError),
        },
        ErasePhase::Erased => ErasePhase::Erased,
        ErasePhase::Failed(failure) => ErasePhase::Failed(failure),
    }
}

/// The step that is due in `phase`.
pub open spec fn step_in(phase: ErasePhase) -> EraseStepView {
    match phase {
        ErasePhase::Opening => EraseStepView::Open,
        ErasePhase::Filling { len } => EraseStepView::Overwrite(uniform(FILL_BYTE, len as nat)),
        ErasePhase::Zeroing { len } => EraseStepView::Overwrite(uniform(ZERO_BYTE, len as nat)),
        ErasePhase::Removing => EraseStepView::Remove,
        ErasePhase::Erased => EraseStepView::Done(Ok(())),
        ErasePhase::Failed(failure) => EraseStepView::Done(Err(failure)),
    }
}

/// The phase of a job after the caller reported `events`, one after another.
pub open spec fn phase_after_all(events: Seq<EraseEvent>) -> ErasePhase
    decreases events.len(),
{
    if events.len() == 0 {
        ErasePhase::Opening
    } else {
        phase_after(phase_after_all(events.drop_last()), events.last())
    }
}

/// Each phase before the end is reached by one course of events only.
proof fn lemma_course(events: Seq<EraseEvent>)
    ensures
        match phase_after_all(events) {
            ErasePhase::Opening => events.len() == 0,
            ErasePhase::Filling { len } => events =~= seq![EraseEvent::Opened { len: len as u64 }],
            ErasePhase::Zeroing { len } => events =~= seq![
                EraseEvent::Opened { len: len as u64 },
                EraseEvent::Written,
            ],
            ErasePhase::Removing => {
                &&& events.len() == 3
                &&& events[0] is Opened
                &&& events[1] == EraseEvent::Written
                &&& events[2] == EraseEvent::Written
            },
            ErasePhase::Erased => {
                &&& events.len() >= 4
                &&& events[0] is Opened
                &&& events[1] == EraseEvent::Written
                &&& events[2] == EraseEvent::Written
                &&& events[3] == EraseEvent::Removed
            },
            ErasePhase::Failed(_) => true,
        },
    decreases events.len(),
{
    if events.len() > 0 {
        let earlier = events.drop_last();
        lemma_course(earlier);
        assert forall|i: int| 0 <= i < earlier.len() implies earlier[i] == events[i] by {}
    }
}

/// Whatever the caller reports, a pass that the job asks for writes exactly
/// as many bytes as the file was long when it was opened: `x` in the first
/// pass, which follows the opening, and zeros in the second, which follows
/// the first.
pub proof fn lemma_passes_have_file_length(events: Seq<EraseEvent>, data: Seq<u8>)
    requires
        step_in(phase_after_all(events)) == EraseStepView::Overwrite(data),
    ensures
        events.len() > 0,
        events[0] is Opened,
        data.len() == events[0]->len,
        events.len() == 1 ==> data == uniform(FILL_BYTE, events[0]->len as nat),
        events.len() != 1 ==> events.len() == 2 && events[1] == EraseEvent::Written && data
            == uniform(ZERO_BYTE, events[0]->len as nat),
{
    lemma_course(events);
}

/// Whatever the caller reports, the job asks for the removal only when the
/// file was opened and both passes were written: after a failure it never
/// does.
pub proof fn lemma_removal_follows_passes(events: Seq<EraseEvent>)
    requires
        step_in(phase_after_all(events)) == EraseStepView::Remove,
    ensures
        events.len() == 3,
        events[0] is Opened,
        events[1] == EraseEvent::Written,
        events[2] == EraseEvent::Written,
{
    lemma_course(events);
}

/// Whatever the caller reports, the job ends in success only when the
/// opening, both passes and the removal succeeded, in this order.
pub proof fn lemma_success_follows_removal(events: Seq<EraseEvent>)
    requires
        phase_after_all(events) == ErasePhase::Erased,
    ensures
        events.len() >= 4,
        events[0] is Opened,
        events[1] == EraseEvent::Written,
        events[2] == EraseEvent::Written,
        events[3] == EraseEvent::Removed,
{
    lemma_course(events);
}

/// When every step succeeds on a file of `len` bytes, the job asks for `len`
/// bytes of `x`, then for `len` zero bytes, then for the removal, and ends in
/// success.
pub proof fn lemma_course_of_success(len: usize)
    ensures
        step_in(phase_after_all(seq![])) == EraseStepView::Open,
        step_in(phase_after_all(seq![EraseEvent::Opened { len: len as u64 }]))
            == EraseStepView::Overwrite(uniform(FILL_BYTE, len as nat)),
        step_in(
            phase_after_all(seq![EraseEvent::Opened { len: len as u64 }, EraseEvent::Written]),
        ) == EraseStepView::Overwrite(uniform(ZERO_BYTE, len as nat)),
        step_in(
            phase_after_all(
                seq![
                    EraseEvent::Opened { len: len as u64 },
                    EraseEvent::Written,
                    EraseEvent::Written,
                ],
            ),
        ) == EraseStepView::Remove,
        phase_after_all(
            seq![
                EraseEvent::Opened { len: len as u64 },
                EraseEvent::Written,
                EraseEvent::Written,
                EraseEvent::Removed,
            ],
        ) == ErasePhase::Erased,
{
    let opened = EraseEvent::Opened { len: len as u64 };
    let e0 = Seq::<EraseEvent>::empty();
    let e1 = seq![opened];
    let e2 = seq![opened, EraseEvent::Written];
    let e3 = seq![opened, EraseEvent::Written, EraseEvent::Written];
    let e4 = seq![opened, EraseEvent::Written, EraseEvent::Written, EraseEvent::Removed];
    assert(e1.drop_last() =~= e0);
    assert(e2.drop_last() =~= e1);
    assert(e3.drop_last() =~= e2);
    assert(e4.drop_last() =~= e3);
}

/// What the caller is to do with the file.
#[derive(Debug)]
pub enum EraseStep {
    /// Open the file for reading and writing and report its length.
    Open,
    /// Write these bytes over the file, from its first byte on.
    Overwrite(Vec<u8>),
    /// Remove the name of the file.
    Remove,
    /// Nothing is left to do: the job ended so.
    Done(Result<(), EraseFailure>),
}

impl View for EraseStep {
    type V = EraseStepView;

    open spec fn view(&self) -> EraseStepView {
        match self {
            EraseStep::Open => EraseStepView::Open,
            EraseStep::Overwrite(data) => EraseStepView::Overwrite(data@),
            EraseStep::Remove => EraseStepView::Remove,
            EraseStep::Done(outcome) => EraseStepView::Done(*outcome),
        }
    }
}

/// The erasing of one file.
#[derive(Debug)]
pub struct EraseJob {
    phase: ErasePhase,
}

impl View for EraseJob {
    type V = ErasePhase;

    closed spec fn view(&self) -> ErasePhase {
        self.phase
    }
}

impl EraseJob {
    /// A job that has not begun: the file is to be opened.
    pub fn new() -> (job: EraseJob)
        ensures
            job@ == ErasePhase::Opening,
    {
        EraseJob { phase: ErasePhase::Opening }
    }

    /// How far the job has come.
    pub fn phase(&self) -> (phase: ErasePhase)
        ensures
            phase == self@,
    {
        self.phase
    }

    /// The step that is due.
    pub fn step(&self) -> (step: EraseStep)
        ensures
            step@ == step_in(self@),
    {
        match self.phase {
            ErasePhase::Opening => EraseStep::Open,
            ErasePhase::Filling { len } => EraseStep::Overwrite(overwrite_pattern(FILL_BYTE, len)),
            ErasePhase::Zeroing { len } => EraseStep::Overwrite(overwrite_pattern(ZERO_BYTE, len)),
            ErasePhase::Removing => EraseStep::Remove,
            ErasePhase::Erased => EraseStep::Done(Ok(())),
            ErasePhase::Failed(failure) => EraseStep::Done(Err(failure)),
        }
    }

    /// Takes the caller's report on the step that was due, and moves on.
    pub fn advance(&mut self, event: EraseEvent)
        ensures
            final(self)@ == phase_after(old(self)@, event),
    {
        let next: ErasePhase = match self.phase {
            ErasePhase::Opening => match event {
                EraseEvent::Opened { len } => {
                    if len <= usize::MAX as u64 {
                        ErasePhase::Filling { len: len as usize }
                    } else {
                        ErasePhase::Failed(EraseFailure::EraseError)
                    }
                },
                _ => ErasePhase::Failed(EraseFailure::EraseError),
            },
            ErasePhase::Filling { len } => match event {
                EraseEvent::Written => ErasePhase::Zeroing { len },
                _ => ErasePhase::Failed(EraseFailure::EraseError),
            },
            ErasePhase::Zeroing { len } => match event {
                EraseEvent::Written => ErasePhase::Removing,
                _ => ErasePhase::Failed(EraseFailure::EraseError),
            },
            ErasePhase::Removing => match event {
                EraseEvent::Removed => ErasePhase::Erased,
                _ => ErasePhase::Failed(EraseFailure::UnlinkError),
            },
            ErasePhase::Erased => ErasePhase::Erased,
            ErasePhase::Failed(failure) => ErasePhase::Failed(failure),
        };
        self.phase = next;
    }
}

} // verus!
