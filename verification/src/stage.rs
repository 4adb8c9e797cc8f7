//! The text-input replay state machine.
//!
//! A modal on-screen keyboard cannot set a widget's text directly: the only
//! channel into the GUI toolkit is the same key/text event stream a physical
//! keyboard would produce. One edit is therefore scripted as a fixed sequence
//! of stages — select all, delete, insert the replacement text, press escape —
//! and each per-frame input-handling call performs exactly one stage, so the
//! multi-key sequence is spread across consecutive frames without blocking.

use vstd::prelude::*;

verus! {

/// The logical key carried by a synthetic key event.
#[derive(Clone, Copy, PartialEq, Eq, Structural, Debug)]
pub enum Key {
    A,
    Backspace,
    Escape,
}

/// A synthetic input event handed to the GUI toolkit, standing in for what a
/// physical keyboard would produce. `command` is the platform accelerator
/// modifier; synthetic key events never repeat.
#[derive(Clone, PartialEq, Eq, Debug)]
pub enum SyntheticEvent {
    Key { key: Key, pressed: bool, command: bool },
    Text(String),
}

/// One step of the scripted edit transaction. `Nothing` is the idle state and
/// is absorbing; the other stages form a single chain that falls back to
/// `Nothing` after the final escape-key release.
#[derive(Clone, Copy, PartialEq, Eq, Structural, Debug)]
pub enum ImeStage {
    Nothing,
    SelectAllDown,
    SelectAllUp,
    BackSpaceDown,
    BackSpaceUp,
    PutText,
    EscapeDown,
    EscapeUp,
}

impl ImeStage {
    /// The first stage of a full replay of an accepted edit.
    pub const START: ImeStage = ImeStage::SelectAllDown;

    /// The first stage of the cancel-only sub-path: only the escape key is
    /// replayed and no edit event is emitted.
    pub const CANCEL: ImeStage = ImeStage::EscapeDown;

    /// The total successor function on stages.
    pub open spec fn spec_next(self) -> ImeStage {
        match self {
            ImeStage::Nothing => ImeStage::Nothing,
            ImeStage::SelectAllDown => ImeStage::SelectAllUp,
            ImeStage::SelectAllUp => ImeStage::BackSpaceDown,
            ImeStage::BackSpaceDown => ImeStage::BackSpaceUp,
            ImeStage::BackSpaceUp => ImeStage::PutText,
            ImeStage::PutText => ImeStage::EscapeDown,
            ImeStage::EscapeDown => ImeStage::EscapeUp,
            ImeStage::EscapeUp => ImeStage::Nothing,
        }
    }

    /// The synthetic key event emitted at this stage: none for `Nothing`
    /// (idle) and `PutText` (the caller appends the text event itself).
    pub open spec fn spec_event(self) -> Option<SyntheticEvent> {
        match self {
            ImeStage::Nothing => None,
            ImeStage::SelectAllDown => Some(
                SyntheticEvent::Key { key: Key::A, pressed: true, command: true },
            ),
            ImeStage::SelectAllUp => Some(
                SyntheticEvent::Key { key: Key::A, pressed: false, command: true },
            ),
            ImeStage::BackSpaceDown => Some(
                SyntheticEvent::Key { key: Key::Backspace, pressed: true, command: false },
            ),
            ImeStage::BackSpaceUp => Some(
                SyntheticEvent::Key { key: Key::Backspace, pressed: false, command: false },
            ),
            ImeStage::PutText => None,
            ImeStage::EscapeDown => Some(
                SyntheticEvent::Key { key: Key::Escape, pressed: true, command: false },
            ),
            ImeStage::EscapeUp => Some(
                SyntheticEvent::Key { key: Key::Escape, pressed: false, command: false },
            ),
        }
    }

    /// The stage `n` successor steps after `self`.
    pub open spec fn spec_next_n(self, n: nat) -> ImeStage
        decreases n,
    {
        if n == 0 {
            self
        } else {
            self.spec_next_n((n - 1) as nat).spec_next()
        }
    }

    pub fn next(self) -> (r: Self)
        ensures
            r == self.spec_next(),
    {
        match self {
            ImeStage::Nothing => ImeStage::Nothing,
            ImeStage::SelectAllDown => ImeStage::SelectAllUp,
            ImeStage::SelectAllUp => ImeStage::BackSpaceDown,
            ImeStage::BackSpaceDown => ImeStage::BackSpaceUp,
            ImeStage::BackSpaceUp => ImeStage::PutText,
            ImeStage::PutText => ImeStage::EscapeDown,
            ImeStage::EscapeDown => ImeStage::EscapeUp,
            ImeStage::EscapeUp => ImeStage::Nothing,
        }
    }

    pub fn advance(&mut self)
        ensures
            *final(self) == old(self).spec_next(),
    {
        *self = self.next();
    }

    /// Appends this stage's synthetic key event, if any, and reports whether
    /// the caller must append a text-insertion event instead (exactly the
    /// `PutText` stage).
    pub fn add_event(self, events: &mut Vec<SyntheticEvent>) -> (r: bool)
        ensures
            r == (self == ImeStage::PutText),
            match self.spec_event() {
                Some(e) => final(events)@ == old(events)@.push(e),
                None => final(events)@ == old(events)@,
            },
    {
        match self {
            ImeStage::Nothing => false,
            ImeStage::SelectAllDown => {
                events.push(SyntheticEvent::Key { key: Key::A, pressed: true, command: true });
                false
            }
            ImeStage::SelectAllUp => {
                events.push(SyntheticEvent::Key { key: Key::A, pressed: false, command: true });
                false
            }
            ImeStage::BackSpaceDown => {
                events.push(
                    SyntheticEvent::Key { key: Key::Backspace, pressed: true, command: false },
                );
                false
            }
            ImeStage::BackSpaceUp => {
                events.push(
                    SyntheticEvent::Key { key: Key::Backspace, pressed: false, command: false },
                );
                false
            }
            ImeStage::PutText => true,
            ImeStage::EscapeDown => {
                events.push(
                    SyntheticEvent::Key { key: Key::Escape, pressed: true, command: false },
                );
                false
            }
            ImeStage::EscapeUp => {
                events.push(
                    SyntheticEvent::Key { key: Key::Escape, pressed: false, command: false },
                );
                false
            }
        }
    }
}

/// Law (cycle): the stage chain always falls back to idle. The idle stage is
/// absorbing; from any stage eight successor steps land on idle; a full
/// replay from the select-all press takes seven steps to return to idle, and
/// the cancel sub-path from the escape press takes two.
pub proof fn lemma_stage_cycle(s: ImeStage)
    ensures
        ImeStage::Nothing.spec_next() == ImeStage::Nothing,
        s.spec_next_n(8) == ImeStage::Nothing,
        ImeStage::START.spec_next_n(7) == ImeStage::Nothing,
        ImeStage::CANCEL.spec_next_n(2) == ImeStage::Nothing,
{
    reveal_with_fuel(ImeStage::spec_next_n, 9);
    match s {
        ImeStage::Nothing => assert(s.spec_next_n(8) == ImeStage::Nothing),
        ImeStage::SelectAllDown => assert(s.spec_next_n(8) == ImeStage::Nothing),
        ImeStage::SelectAllUp => assert(s.spec_next_n(8) == ImeStage::Nothing),
        ImeStage::BackSpaceDown => assert(s.spec_next_n(8) == ImeStage::Nothing),
        ImeStage::BackSpaceUp => assert(s.spec_next_n(8) == ImeStage::Nothing),
        ImeStage::PutText => assert(s.spec_next_n(8) == ImeStage::Nothing),
        ImeStage::EscapeDown => assert(s.spec_next_n(8) == ImeStage::Nothing),
        ImeStage::EscapeUp => assert(s.spec_next_n(8) == ImeStage::Nothing),
    }
}

} // verus!
