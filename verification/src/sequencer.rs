//! The story sequencer's core state machine.
//!
//! The core tracks the pending line buffer, the offered choice set, and the
//! sequencer state: `Continuing` (the player may advance), `AwaitingChoice`
//! (the player must pick an option), or `Ended` (the script is exhausted).
//! One resumption of the narrative interpreter yields buffered lines and an
//! outcome (done, or a choice set); the core records the outcome and then
//! dispatches one display step. Buffered lines always surface before an end
//! or a choice is honoured.

use vstd::prelude::*;

use crate::speaker::spec_parse;
use crate::speaker::RawLine;
use crate::speaker::RawLineView;
use crate::speaker::SpeakerState;
use crate::speaker::SpeakerView;

verus! {

/// The sequencer's state. Exactly one holds at any time.
#[derive(Clone, Copy, Debug, PartialEq, Eq, Structural)]
pub enum SequencerState {
    /// The player may advance the story.
    Continuing,
    /// The player must pick one of the offered choices.
    AwaitingChoice,
    /// The script is exhausted; no further story input is accepted.
    Ended,
}

/// What one resumption of the narrative interpreter reported, beyond the
/// lines it buffered: the story reached an end, or offered choices.
#[derive(Clone, Debug)]
pub enum ResumeOutcome {
    /// The story reached an end.
    Done,
    /// A set of choices was offered; each entry is the choice's text.
    Choices(Vec<String>),
}

/// Mathematical model of a [`ResumeOutcome`].
pub enum OutcomeView {
    Done,
    Choices(Seq<Seq<char>>),
}

impl View for ResumeOutcome {
    type V = OutcomeView;

    open spec fn view(&self) -> OutcomeView {
        match self {
            ResumeOutcome::Done => OutcomeView::Done,
            ResumeOutcome::Choices(v) => OutcomeView::Choices(v.deep_view()),
        }
    }
}

/// Mathematical model of a [`SequencerCore`].
pub struct CoreView {
    pub speaker: SpeakerView,
    pub buffer: Seq<RawLineView>,
    pub choices: Seq<Seq<char>>,
    pub state: SequencerState,
    pub choice_pending: bool,
    pub exhausted: bool,
}

/// The model of a freshly created core: nothing displayed, nothing buffered,
/// no choices, continuing.
pub open spec fn init_core_view() -> CoreView {
    CoreView {
        speaker: SpeakerView {
            name: None,
            content: Seq::<char>::empty(),
            animation: None,
            position: None,
            color: None,
        },
        buffer: Seq::<RawLineView>::empty(),
        choices: Seq::<Seq<char>>::empty(),
        state: SequencerState::Continuing,
        choice_pending: false,
        exhausted: false,
    }
}

/// Well-formedness of a core. A choice set is only held while it is awaited
/// or still pending behind buffered lines; awaiting and ended states carry
/// no buffered lines.
pub open spec fn core_inv(c: CoreView) -> bool {
    &&& (c.state is AwaitingChoice ==> c.buffer.len() == 0 && !c.choice_pending)
    &&& (c.state is Ended ==> c.buffer.len() == 0 && !c.choice_pending && c.choices.len() == 0)
    &&& ((c.state is Continuing && !c.choice_pending) ==> c.choices.len() == 0)
}

/// Recording one resumption outcome: `Done` marks the script exhausted;
/// a choice set is stored and marked pending. Either way the emitted lines
/// join the back of the line buffer.
pub open spec fn spec_record(c: CoreView, lines: Seq<RawLineView>, outcome: OutcomeView) -> CoreView {
    match outcome {
        OutcomeView::Done => CoreView { exhausted: true, buffer: c.buffer + lines, ..c },
        OutcomeView::Choices(ts) => CoreView {
            choice_pending: true,
            choices: ts,
            buffer: c.buffer + lines,
            ..c
        },
    }
}

/// One display step. Buffered lines take priority over both an offered
/// choice and the end of the script: while any line is buffered, the front
/// line is consumed into the speaker state and the sequencer continues.
/// Only with an empty buffer does a pending choice set take effect, and
/// only with an empty buffer and no pending choice does exhaustion end the
/// story.
pub open spec fn spec_dispatch(c: CoreView) -> CoreView {
    if c.buffer.len() > 0 {
        CoreView {
            speaker: spec_parse(c.buffer[0]),
            buffer: c.buffer.drop_first(),
            state: SequencerState::Continuing,
            ..c
        }
    } else if c.choice_pending {
        CoreView { state: SequencerState::AwaitingChoice, choice_pending: false, ..c }
    } else if c.exhausted {
        CoreView { state: SequencerState::Ended, ..c }
    } else {
        c
    }
}

/// One full advance after a resumption: record the outcome, then dispatch.
pub open spec fn spec_advance(c: CoreView, lines: Seq<RawLineView>, outcome: OutcomeView) -> CoreView {
    spec_dispatch(spec_record(c, lines, outcome))
}

/// A resolved choice: the choice set is cleared and the sequencer leaves
/// `AwaitingChoice` for `Continuing`.
pub open spec fn spec_resolve_choice(c: CoreView) -> CoreView {
    CoreView { choices: Seq::<Seq<char>>::empty(), state: SequencerState::Continuing, ..c }
}

/// An advance must resume the interpreter exactly when nothing is buffered,
/// no choice is pending, and the script is not yet exhausted.
pub open spec fn needs_resume(c: CoreView) -> bool {
    c.buffer.len() == 0 && !c.choice_pending && !c.exhausted
}

/// How a successful advance relates the core before the call to the core
/// after it: a no-op outside `Continuing`; a plain dispatch when no
/// resumption is needed; otherwise a dispatch over whatever lines and
/// outcome the interpreter yielded.
pub open spec fn advance_ok(pre: CoreView, post: CoreView) -> bool {
    if !(pre.state is Continuing) {
        post == pre
    } else if !needs_resume(pre) {
        post == spec_dispatch(pre)
    } else {
        exists|lines: Seq<RawLineView>, outcome: OutcomeView| post == spec_advance(
            pre,
            lines,
            outcome,
        )
    }
}

/// Law: an advance from `Continuing` never reaches `Ended` while lines are
/// buffered; a non-empty buffer keeps the sequencer in `Continuing`, and
/// reaching `Ended` means the buffer was empty and the resumption brought
/// no line.
pub proof fn lemma_buffer_drains_before_end(c: CoreView, lines: Seq<RawLineView>, outcome: OutcomeView)
    requires
        c.state is Continuing,
    ensures
        c.buffer.len() > 0 ==> spec_advance(c, lines, outcome).state is Continuing,
        spec_advance(c, lines, outcome).state is Ended ==> c.buffer.len() == 0 && lines.len()
            == 0,
        spec_dispatch(c).state is Ended ==> c.buffer.len() == 0,
{
}

/// Law: recording an outcome and dispatching preserves well-formedness of a
/// continuing core.
pub proof fn lemma_advance_preserves_inv(c: CoreView, lines: Seq<RawLineView>, outcome: OutcomeView)
    requires
        core_inv(c),
        c.state is Continuing,
    ensures
        core_inv(spec_advance(c, lines, outcome)),
        core_inv(spec_dispatch(c)),
{
}

/// The core state machine: the speaker state shown to the render layer, the
/// pending line buffer, the offered choice set, and the sequencer state.
pub struct SequencerCore {
    /// What the most recently consumed line said.
    pub speak_state: SpeakerState,
    line_buffer: Vec<RawLine>,
    current_choices: Vec<String>,
    state: SequencerState,
    choice_pending: bool,
    exhausted: bool,
}

impl View for SequencerCore {
    type V = CoreView;

    closed spec fn view(&self) -> CoreView {
        CoreView {
            speaker: self.speak_state@,
            buffer: self.line_buffer.deep_view(),
            choices: self.current_choices.deep_view(),
            state: self.state,
            choice_pending: self.choice_pending,
            exhausted: self.exhausted,
        }
    }
}

impl SequencerCore {
    /// A fresh core: nothing displayed, nothing buffered, continuing.
    pub fn new() -> (r: SequencerCore)
        ensures
            r@ == init_core_view(),
            core_inv(r@),
    {
        let r = SequencerCore {
            speak_state: SpeakerState::new(),
            line_buffer: Vec::new(),
            current_choices: Vec::new(),
            state: SequencerState::Continuing,
            choice_pending: false,
            exhausted: false,
        };
        proof {
            assert(r.line_buffer.deep_view() =~= Seq::<RawLineView>::empty());
            assert(r.current_choices.deep_view() =~= Seq::<Seq<char>>::empty());
        }
        r
    }

    /// The sequencer state.
    pub fn state(&self) -> (r: SequencerState)
        ensures
            r == self@.state,
    {
        self.state
    }

    /// How many emitted lines wait to be displayed.
    pub fn buffer_len(&self) -> (r: usize)
        ensures
            r == self@.buffer.len(),
    {
        self.line_buffer.len()
    }

    /// The offered choice set; meaningful while a choice is awaited or
    /// pending.
    pub fn choices(&self) -> (r: &Vec<String>)
        ensures
            r.deep_view() == self@.choices,
    {
        &self.current_choices
    }

    /// Whether a choice set waits behind buffered lines.
    pub fn is_choice_pending(&self) -> (r: bool)
        ensures
            r == self@.choice_pending,
    {
        self.choice_pending
    }

    /// Whether the interpreter has reported the script exhausted.
    pub fn is_exhausted(&self) -> (r: bool)
        ensures
            r == self@.exhausted,
    {
        self.exhausted
    }

    /// Records one resumption outcome; see [`spec_record`].
    pub fn record_outcome(&mut self, lines: Vec<RawLine>, outcome: ResumeOutcome)
        ensures
            final(self)@ == spec_record(old(self)@, lines.deep_view(), outcome@),
    {
        let ghost pre = *self;
        let ghost lv = lines.deep_view();
        match outcome {
            ResumeOutcome::Done => {
                self.exhausted = true;
            },
            ResumeOutcome::Choices(ts) => {
                self.choice_pending = true;
                self.current_choices = ts;
            },
        }
        let mut incoming = lines;
        self.line_buffer.append(&mut incoming);
        proof {
            assert(self.line_buffer.deep_view() =~= pre.line_buffer.deep_view() + lv);
        }
    }

    /// Makes one display step; see [`spec_dispatch`].
    pub fn dispatch(&mut self)
        ensures
            final(self)@ == spec_dispatch(old(self)@),
            core_inv(old(self)@) && old(self)@.state is Continuing ==> core_inv(final(self)@),
    {
        if self.line_buffer.len() > 0 {
            let ghost pre = *self;
            let line = self.line_buffer.remove(0);
            let st = SpeakerState::parse(line.text.as_str(), &line.tags);
            self.speak_state = st;
            self.state = SequencerState::Continuing;
            proof {
                assert(line@ == pre.line_buffer.deep_view()[0]);
                assert(self.line_buffer.deep_view() =~= pre.line_buffer.deep_view().drop_first());
            }
        } else if self.choice_pending {
            self.state = SequencerState::AwaitingChoice;
            self.choice_pending = false;
        } else if self.exhausted {
            self.state = SequencerState::Ended;
        }
    }

    /// Records one resumption outcome and makes one display step; see
    /// [`spec_advance`]. This is the whole effect of one advance once the
    /// interpreter has been resumed, verified for every outcome.
    pub fn step(&mut self, lines: Vec<RawLine>, outcome: ResumeOutcome)
        ensures
            final(self)@ == spec_advance(old(self)@, lines.deep_view(), outcome@),
            core_inv(old(self)@) && old(self)@.state is Continuing ==> core_inv(final(self)@),
    {
        let ghost pre = *self;
        let ghost lv = lines.deep_view();
        let ghost ov = outcome@;
        self.record_outcome(lines, outcome);
        proof {
            if core_inv(pre@) && pre@.state is Continuing {
                lemma_advance_preserves_inv(pre@, lv, ov);
            }
        }
        self.dispatch();
    }

    /// Resolves the awaited choice: clears the choice set and returns to
    /// `Continuing`; see [`spec_resolve_choice`].
    pub fn resolve_choice(&mut self)
        ensures
            final(self)@ == spec_resolve_choice(old(self)@),
    {
        self.current_choices = Vec::new();
        self.state = SequencerState::Continuing;
        proof {
            assert(self.current_choices.deep_view() =~= Seq::<Seq<char>>::empty());
        }
    }
}

} // verus!
