//! Conditions that guard a transition, and their evaluation.
use vstd::prelude::*;

use crate::event::{InputEvent, KeyCode};
use crate::flags::StateFlags;

verus! {

/// An inclusive range of key codes, `start..=end`.
#[derive(Clone, Copy, Debug, PartialEq, Eq, Structural)]
pub struct KeyRange {
    pub start: KeyCode,
    pub end: KeyCode,
}

impl KeyRange {
    /// The range `start..=end`.
    pub fn new(start: KeyCode, end: KeyCode) -> (r: KeyRange)
        ensures
            r.start == start,
            r.end == end,
    {
        KeyRange { start, end }
    }

    /// The range that holds `key` alone.
    pub fn single(key: KeyCode) -> (r: KeyRange)
        ensures
            r.start == key,
            r.end == key,
    {
        KeyRange { start: key, end: key }
    }

    pub open spec fn contains_spec(self, key: KeyCode) -> bool {
        self.start <= key && key <= self.end
    }

    /// Whether `key` lies in the range, both ends included.
    pub fn contains(&self, key: KeyCode) -> (r: bool)
        ensures
            r == self.contains_spec(key),
    {
        self.start <= key && key <= self.end
    }
}

/// A predicate over the elapsed time in a state (in milliseconds), the input
/// event being handled, if any, and the sticky flags.
#[derive(Clone, Copy, Debug, PartialEq, Eq, Structural)]
pub enum TransitionCondition {
    /// Every flag of the mask is set.
    FlagsSet(StateFlags),
    /// Not every flag of the mask is set.
    FlagsNotSet(StateFlags),
    /// The input is a press of a key in the range.
    Pressed(KeyRange),
    /// The input is a release of a key in the range.
    Depressed(KeyRange),
    /// Less time than the threshold has passed.
    ElapsedLess(u32),
    /// At least the threshold has passed.
    ElapsedGreaterOrEqual(u32),
}

impl TransitionCondition {
    /// A press of `key` alone.
    pub fn pressed_single(key: KeyCode) -> (r: TransitionCondition)
        ensures
            r == TransitionCondition::Pressed(KeyRange { start: key, end: key }),
    {
        TransitionCondition::Pressed(KeyRange::single(key))
    }

    /// A release of `key` alone.
    pub fn depressed_single(key: KeyCode) -> (r: TransitionCondition)
        ensures
            r == TransitionCondition::Depressed(KeyRange { start: key, end: key }),
    {
        TransitionCondition::Depressed(KeyRange::single(key))
    }

    /// Whether the condition holds after `elapsed` milliseconds in the
    /// state, on `input`, with `flags` set.
    pub open spec fn holds(self, elapsed: u32, input: Option<InputEvent>, flags: StateFlags) -> bool {
        match self {
            TransitionCondition::FlagsSet(mask) => flags.contains_spec(mask),
            TransitionCondition::FlagsNotSet(mask) => !flags.contains_spec(mask),
            TransitionCondition::Pressed(range) => match input {
                Some(InputEvent::Press(key)) => range.contains_spec(key),
                _ => false,
            },
            TransitionCondition::Depressed(range) => match input {
                Some(InputEvent::Depress(key)) => range.contains_spec(key),
                _ => false,
            },
            TransitionCondition::ElapsedLess(limit) => elapsed < limit,
            TransitionCondition::ElapsedGreaterOrEqual(limit) => elapsed >= limit,
        }
    }

    /// Evaluates the condition. A press or release condition is false when
    /// there is no input or the input is of the other kind.
    pub fn evaluate(&self, elapsed: u32, input: Option<InputEvent>, flags: StateFlags) -> (r: bool)
        ensures
            r == self.holds(elapsed, input, flags),
    {
        match (self, input) {
            (TransitionCondition::FlagsSet(mask), _) => flags.contains(*mask),
            (TransitionCondition::FlagsNotSet(mask), _) => !flags.contains(*mask),
            (TransitionCondition::Pressed(range), Some(InputEvent::Press(key))) => range.contains(key),
            (TransitionCondition::Depressed(range), Some(InputEvent::Depress(key))) => range.contains(key),
            (TransitionCondition::ElapsedLess(limit), _) => elapsed < *limit,
            (TransitionCondition::ElapsedGreaterOrEqual(limit), _) => elapsed >= *limit,
            _ => false,
        }
    }
}

/// At any threshold, the two elapsed-time conditions are never true
/// together, one of them always is, and at the threshold itself only the
/// at-least condition holds.
pub proof fn lemma_elapsed_partition(
    limit: u32,
    elapsed: u32,
    input: Option<InputEvent>,
    flags: StateFlags,
)
    ensures
        !(TransitionCondition::ElapsedLess(limit).holds(elapsed, input, flags)
            && TransitionCondition::ElapsedGreaterOrEqual(limit).holds(elapsed, input, flags)),
        TransitionCondition::ElapsedLess(limit).holds(elapsed, input, flags)
            || TransitionCondition::ElapsedGreaterOrEqual(limit).holds(elapsed, input, flags),
        elapsed == limit ==> !TransitionCondition::ElapsedLess(limit).holds(elapsed, input, flags)
            && TransitionCondition::ElapsedGreaterOrEqual(limit).holds(elapsed, input, flags),
{
}

} // verus!
