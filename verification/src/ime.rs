//! The text-edit coordinator.
//!
//! The coordinator owns the replay stage, the pending text or numeric value to
//! edit, and the last-observed "keyboard wanted" signal from the GUI toolkit.
//! The modal keyboard applet itself is a blocking platform call that the
//! embedding runs; the coordinator exposes the decisions around it:
//! [`Ime::prepare_keyboard`] says whether to launch and with what initial
//! text, [`Ime::apply_keyboard_result`] folds the applet's outcome back in,
//! and [`Ime::replay_step`] performs one per-frame step of the scripted
//! replay. [`Ime::handle_output`] scans the toolkit's frame output for a
//! clicked editable widget and the keyboard request signal.

use vstd::prelude::*;

use crate::stage::ImeStage;
use crate::stage::Key;
use crate::stage::SyntheticEvent;

verus! {

/// What the GUI toolkit reports of a clicked widget: its current text value
/// and/or its current numeric value, the latter already rendered as its
/// canonical decimal string.
#[derive(Clone, PartialEq, Eq, Debug)]
pub struct WidgetClick {
    pub text: Option<String>,
    pub value: Option<String>,
}

/// One event of the toolkit's per-frame platform output. Only widget clicks
/// are of interest here; everything else is `Other`.
#[derive(Clone, PartialEq, Eq, Debug)]
pub enum OutputEvent {
    Clicked(WidgetClick),
    Other,
}

/// The part of the GUI toolkit's per-frame output that the coordinator reads:
/// the platform output events and whether the toolkit wants text input.
#[derive(Clone, PartialEq, Eq, Debug)]
pub struct FrameOutput {
    pub events: Vec<OutputEvent>,
    pub ime_requested: bool,
}

/// The click whose captured values win when several clicks arrive in one
/// frame: the last one.
pub open spec fn last_click(events: Seq<OutputEvent>) -> Option<WidgetClick>
    decreases events.len(),
{
    if events.len() == 0 {
        None
    } else {
        match events.last() {
            OutputEvent::Clicked(c) => Some(c),
            OutputEvent::Other => last_click(events.drop_last()),
        }
    }
}

/// The text-edit coordinator. See the module documentation for the per-frame
/// protocol; the intended call order within one frame is `prepare_keyboard`
/// (and, if it returns an initial text, the blocking applet call followed by
/// `apply_keyboard_result`), then `replay_step`, then the toolkit's own frame
/// computation, then `handle_output`.
pub struct Ime {
    /// Whether the GUI toolkit signalled that it wants text input; cleared
    /// once the keyboard is actually launched.
    pub keyboard_requested: bool,
    /// The current step of the replay script; `Nothing` when no replay is in
    /// flight.
    pub stage: ImeStage,
    /// The text value to pre-fill the keyboard with and, after an accepted
    /// edit, the value to replay as typed text.
    pub current_text_value: Option<String>,
    /// The clicked widget's numeric value as its canonical decimal string; at
    /// most one of the two pending values is meaningful at a time.
    pub current_numeric_value: Option<String>,
}

impl Ime {
    /// Whether the next `prepare_keyboard` call will launch the keyboard: a
    /// request is pending and no replay is in flight.
    pub open spec fn spec_launch_needed(self) -> bool {
        self.keyboard_requested && self.stage == ImeStage::Nothing
    }

    /// The text the keyboard is pre-filled with: the pending text value, or
    /// the pending numeric value's decimal string, or empty.
    pub open spec fn spec_initial_text(self) -> Seq<char> {
        match self.current_text_value {
            Some(t) => t@,
            None => match self.current_numeric_value {
                Some(v) => v@,
                None => Seq::<char>::empty(),
            },
        }
    }

    /// The coordinator after a keyboard launch: the request and both pending
    /// values are consumed; the stage is untouched.
    pub open spec fn spec_after_prepare(self) -> Ime {
        Ime {
            keyboard_requested: false,
            stage: self.stage,
            current_text_value: None,
            current_numeric_value: None,
        }
    }

    /// The coordinator after the keyboard applet returns: acceptance stores
    /// the edited text and starts the full replay; cancellation skips
    /// straight to the escape-key sub-path, leaving the field unchanged.
    pub open spec fn spec_after_result(self, accepted: bool, text: String) -> Ime {
        Ime {
            keyboard_requested: self.keyboard_requested,
            stage: if accepted {
                ImeStage::START
            } else {
                ImeStage::CANCEL
            },
            current_text_value: if accepted {
                Some(text)
            } else {
                self.current_text_value
            },
            current_numeric_value: self.current_numeric_value,
        }
    }

    /// The coordinator after one replay step: the stage advances exactly
    /// once, and the pending text is consumed at the text-insertion step.
    pub open spec fn spec_after_step(self) -> Ime {
        Ime {
            keyboard_requested: self.keyboard_requested,
            stage: self.stage.spec_next(),
            current_text_value: if self.stage == ImeStage::PutText {
                None
            } else {
                self.current_text_value
            },
            current_numeric_value: self.current_numeric_value,
        }
    }

    /// The events one replay step appends, when the pending text is present
    /// wherever the step needs it.
    pub open spec fn spec_step_emits(self) -> Seq<SyntheticEvent>
        recommends
            self.stage == ImeStage::PutText ==> self.current_text_value is Some,
    {
        if self.stage == ImeStage::PutText {
            seq![SyntheticEvent::Text(self.current_text_value.unwrap())]
        } else {
            match self.stage.spec_event() {
                Some(e) => seq![e],
                None => Seq::<SyntheticEvent>::empty(),
            }
        }
    }

    pub fn new() -> (r: Ime)
        ensures
            !r.keyboard_requested,
            r.stage == ImeStage::Nothing,
            r.current_text_value is None,
            r.current_numeric_value is None,
    {
        Ime {
            keyboard_requested: false,
            stage: ImeStage::Nothing,
            current_text_value: None,
            current_numeric_value: None,
        }
    }

    /// Decides whether the modal keyboard must be launched this frame. When a
    /// request is pending and no replay is in flight, it consumes the request
    /// and both pending values and returns the initial text to pre-fill the
    /// keyboard with; otherwise it changes nothing and returns `None`. The
    /// launch itself is the embedding's blocking platform call.
    pub fn prepare_keyboard(&mut self) -> (r: Option<String>)
        ensures
            old(self).spec_launch_needed() ==> {
                &&& r matches Some(init) && init@ == old(self).spec_initial_text()
                &&& *final(self) == old(self).spec_after_prepare()
            },
            !old(self).spec_launch_needed() ==> r is None && *final(self) == *old(self),
    {
        if self.keyboard_requested && self.stage == ImeStage::Nothing {
            self.keyboard_requested = false;
            let text = self.current_text_value.take();
            let value = self.current_numeric_value.take();
            match text {
                Some(t) => Some(t),
                None => match value {
                    Some(v) => Some(v),
                    None => Some(String::new()),
                },
            }
        } else {
            None
        }
    }

    /// Folds the keyboard applet's outcome back into the coordinator. On
    /// accept the returned text becomes the pending replay text and the full
    /// replay starts; on cancel the replay skips to the escape-key sub-path
    /// and the field's value is left alone. A hard platform failure of the
    /// applet has no safe recovery and must abort in the embedding instead of
    /// reaching this call.
    pub fn apply_keyboard_result(&mut self, accepted: bool, text: String)
        ensures
            *final(self) == old(self).spec_after_result(accepted, text),
    {
        if accepted {
            self.current_text_value = Some(text);
            self.stage = ImeStage::START;
        } else {
            self.stage = ImeStage::CANCEL;
        }
    }

    /// Performs one per-frame step of the replay script: appends the stage's
    /// synthetic key event, or the text-insertion event carrying the pending
    /// text at the `PutText` stage, and advances the stage exactly once.
    pub fn replay_step(&mut self, events: &mut Vec<SyntheticEvent>)
        ensures
            *final(self) == old(self).spec_after_step(),
            (old(self).stage == ImeStage::PutText ==> old(self).current_text_value is Some)
                ==> final(events)@ == old(events)@ + old(self).spec_step_emits(),
            old(self).stage == ImeStage::PutText && old(self).current_text_value is None ==> {
                &&& final(events)@.len() == old(events)@.len() + 1
                &&& final(events)@.take(old(events)@.len() as int) == old(events)@
                &&& final(events)@.last() matches SyntheticEvent::Text(s) && s@ == Seq::<
                    char,
                >::empty()
            },
    {
        if self.stage.add_event(events) {
            let pending = self.current_text_value.take();
            match pending {
                Some(t) => {
                    events.push(SyntheticEvent::Text(t));
                    proof {
                        assert(events@ =~= old(events)@ + old(self).spec_step_emits());
                    }
                },
                None => {
                    events.push(SyntheticEvent::Text(String::new()));
                    proof {
                        assert(events@.take(old(events)@.len() as int) =~= old(events)@);
                    }
                },
            }
        } else {
            proof {
                assert(events@ =~= old(events)@ + old(self).spec_step_emits());
            }
        }
        self.stage.advance();
    }

    /// Scans the toolkit's frame output. Only while idle does it capture the
    /// last clicked widget's current text and numeric values — a stray click
    /// during a replay in flight must not corrupt the pending edit. It always
    /// records whether the toolkit wants text input this frame.
    pub fn handle_output(&mut self, out: &FrameOutput)
        ensures
            final(self).stage == old(self).stage,
            final(self).keyboard_requested == out.ime_requested,
            old(self).stage != ImeStage::Nothing ==> {
                &&& final(self).current_text_value == old(self).current_text_value
                &&& final(self).current_numeric_value == old(self).current_numeric_value
            },
            old(self).stage == ImeStage::Nothing ==> match last_click(out.events@) {
                Some(c) => final(self).current_text_value == c.text
                    && final(self).current_numeric_value == c.value,
                None => final(self).current_text_value == old(self).current_text_value
                    && final(self).current_numeric_value == old(self).current_numeric_value,
            },
    {
        let n = out.events.len();
        let mut i: usize = 0;
        while i < n
            invariant
                0 <= i <= n,
                n == out.events@.len(),
                self.stage == old(self).stage,
                self.keyboard_requested == old(self).keyboard_requested,
                old(self).stage != ImeStage::Nothing ==> {
                    &&& self.current_text_value == old(self).current_text_value
                    &&& self.current_numeric_value == old(self).current_numeric_value
                },
                old(self).stage == ImeStage::Nothing ==> match last_click(
                    out.events@.take(i as int),
                ) {
                    Some(c) => self.current_text_value == c.text
                        && self.current_numeric_value == c.value,
                    None => self.current_text_value == old(self).current_text_value
                        && self.current_numeric_value == old(self).current_numeric_value,
                },
            decreases n - i,
        {
            proof {
                assert(out.events@.take(i + 1).drop_last() =~= out.events@.take(i as int));
                assert(out.events@.take(i + 1).last() == out.events@[i as int]);
            }
            match &out.events[i] {
                OutputEvent::Clicked(c) => {
                    if self.stage == ImeStage::Nothing {
                        self.current_text_value = match &c.text {
                            Some(t) => Some(t.clone()),
                            None => None,
                        };
                        self.current_numeric_value = match &c.value {
                            Some(v) => Some(v.clone()),
                            None => None,
                        };
                    }
                },
                OutputEvent::Other => {},
            }
            i = i + 1;
        }
        proof {
            assert(out.events@.take(n as int) =~= out.events@);
        }
        self.keyboard_requested = out.ime_requested;
    }

    /// The coordinator after `n` replay steps.
    pub open spec fn spec_after_steps(self, n: nat) -> Ime
        decreases n,
    {
        if n == 0 {
            self
        } else {
            self.spec_after_steps((n - 1) as nat).spec_after_step()
        }
    }

    /// All events appended over `n` replay steps, in order.
    pub open spec fn spec_emits_steps(self, n: nat) -> Seq<SyntheticEvent>
        decreases n,
    {
        if n == 0 {
            Seq::<SyntheticEvent>::empty()
        } else {
            self.spec_emits_steps((n - 1) as nat) + self.spec_after_steps(
                (n - 1) as nat,
            ).spec_step_emits()
        }
    }
}

/// The full event sequence one accepted edit replays: select-all pressed and
/// released under the platform accelerator, backspace pressed and released,
/// the replacement text, escape pressed and released.
pub open spec fn full_replay_sequence(t: String) -> Seq<SyntheticEvent> {
    seq![
        SyntheticEvent::Key { key: Key::A, pressed: true, command: true },
        SyntheticEvent::Key { key: Key::A, pressed: false, command: true },
        SyntheticEvent::Key { key: Key::Backspace, pressed: true, command: false },
        SyntheticEvent::Key { key: Key::Backspace, pressed: false, command: false },
        SyntheticEvent::Text(t),
        SyntheticEvent::Key { key: Key::Escape, pressed: true, command: false },
        SyntheticEvent::Key { key: Key::Escape, pressed: false, command: false },
    ]
}

/// Law (replay script): from the select-all press with a pending text, seven
/// replay steps emit exactly the select-all, delete, insert, escape sequence
/// — one event per step except the idle-returning last step, which emits none
/// — and leave the coordinator idle with the pending text consumed.
pub proof fn lemma_replay_sequence(c: Ime)
    requires
        c.stage == ImeStage::SelectAllDown,
        c.current_text_value is Some,
    ensures
        c.spec_emits_steps(7) == full_replay_sequence(c.current_text_value.unwrap()),
        c.spec_after_steps(7).stage == ImeStage::Nothing,
        c.spec_after_steps(7).current_text_value is None,
        c.spec_after_steps(7).current_numeric_value == c.current_numeric_value,
        c.spec_after_steps(7).keyboard_requested == c.keyboard_requested,
{
    reveal_with_fuel(Ime::spec_after_steps, 9);
    reveal_with_fuel(Ime::spec_emits_steps, 9);
    let full = full_replay_sequence(c.current_text_value.unwrap());
    assert(c.spec_emits_steps(1) =~= full.take(1));
    assert(c.spec_emits_steps(2) =~= full.take(2));
    assert(c.spec_emits_steps(3) =~= full.take(3));
    assert(c.spec_emits_steps(4) =~= full.take(4));
    assert(c.spec_emits_steps(5) =~= full.take(5));
    assert(c.spec_emits_steps(6) =~= full.take(6));
    assert(c.spec_emits_steps(7) =~= full);
}

/// Law (round trip): with the coordinator idle, a keyboard request pending,
/// and a clicked field's text captured, the keyboard is pre-filled with that
/// text; if the user accepts it unchanged, the replay's one text-insertion
/// event carries exactly the original field value, and the coordinator ends
/// idle again.
pub proof fn lemma_round_trip(c: Ime, t: String)
    requires
        c.stage == ImeStage::Nothing,
        c.keyboard_requested,
        c.current_text_value == Some(t),
    ensures
        c.spec_launch_needed(),
        c.spec_initial_text() == t@,
        ({
            let replaying = c.spec_after_prepare().spec_after_result(true, t);
            &&& replaying.stage == ImeStage::SelectAllDown
            &&& replaying.spec_emits_steps(7) == full_replay_sequence(t)
            &&& replaying.spec_emits_steps(7)[4] == SyntheticEvent::Text(t)
            &&& replaying.spec_after_steps(7).stage == ImeStage::Nothing
        }),
{
    let replaying = c.spec_after_prepare().spec_after_result(true, t);
    lemma_replay_sequence(replaying);
}

} // verus!
