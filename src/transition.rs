//! Transitions and states: the immutable configuration of the machine.
use vstd::prelude::*;

use crate::condition::TransitionCondition;
use crate::event::{InputEvent, InternalEvent, KeyEvent};
use crate::flags::StateFlags;

verus! {

/// A guarded edge of the machine: when every condition holds, it emits its
/// key events, applies its flag changes and moves to the state at index
/// `target` of the table.
#[derive(Debug)]
pub struct Transition {
    pub conditions: Vec<TransitionCondition>,
    pub key_event_emissions: Vec<KeyEvent>,
    pub internal_event_emissions: Vec<InternalEvent>,
    pub target: usize,
}

/// Every condition of `t` holds.
pub open spec fn transition_fires(
    t: Transition,
    elapsed: u32,
    input: Option<InputEvent>,
    flags: StateFlags,
) -> bool {
    forall|k: int|
        0 <= k < t.conditions@.len() ==> (#[trigger] t.conditions@[k]).holds(elapsed, input, flags)
}

/// The position of the first transition of `ts` at or after `from` that
/// fires, if any.
pub open spec fn first_match_from(
    ts: Seq<Transition>,
    from: int,
    elapsed: u32,
    input: Option<InputEvent>,
    flags: StateFlags,
) -> Option<int>
    decreases ts.len() - from,
{
    if from < 0 || from >= ts.len() {
        None
    } else if transition_fires(ts[from], elapsed, input, flags) {
        Some(from)
    } else {
        first_match_from(ts, from + 1, elapsed, input, flags)
    }
}

/// The position of the first transition of `ts` that fires, if any.
pub open spec fn first_match(
    ts: Seq<Transition>,
    elapsed: u32,
    input: Option<InputEvent>,
    flags: StateFlags,
) -> Option<int> {
    first_match_from(ts, 0, elapsed, input, flags)
}

/// The first firing transition at or after `from` is the earliest one that
/// fires there: it lies in range, fires, and every transition between `from`
/// and it does not. With none, no transition from `from` on fires.
pub proof fn lemma_first_match_from(
    ts: Seq<Transition>,
    from: int,
    elapsed: u32,
    input: Option<InputEvent>,
    flags: StateFlags,
)
    requires
        0 <= from,
    ensures
        first_match_from(ts, from, elapsed, input, flags) matches Some(j) ==> from <= j < ts.len()
            && transition_fires(ts[j], elapsed, input, flags) && forall|k: int|
            from <= k < j ==> !transition_fires(#[trigger] ts[k], elapsed, input, flags),
        first_match_from(ts, from, elapsed, input, flags) is None ==> forall|k: int|
            from <= k < ts.len() ==> !transition_fires(#[trigger] ts[k], elapsed, input, flags),
    decreases ts.len() - from,
{
    if from < ts.len() && !transition_fires(ts[from], elapsed, input, flags) {
        lemma_first_match_from(ts, from + 1, elapsed, input, flags);
    }
}

/// The transition chosen for `ts` is the earliest one that fires.
pub proof fn lemma_first_match(
    ts: Seq<Transition>,
    elapsed: u32,
    input: Option<InputEvent>,
    flags: StateFlags,
)
    ensures
        first_match(ts, elapsed, input, flags) matches Some(j) ==> 0 <= j < ts.len()
            && transition_fires(ts[j], elapsed, input, flags) && forall|k: int|
            0 <= k < j ==> !transition_fires(#[trigger] ts[k], elapsed, input, flags),
        first_match(ts, elapsed, input, flags) is None ==> forall|k: int|
            0 <= k < ts.len() ==> !transition_fires(#[trigger] ts[k], elapsed, input, flags),
{
    lemma_first_match_from(ts, 0, elapsed, input, flags);
}

/// When two transitions of a list both fire, the later one is never chosen:
/// the choice falls at or before the earlier one, and on the earlier one
/// when nothing before it fires.
pub proof fn lemma_first_match_priority(
    ts: Seq<Transition>,
    earlier: int,
    later: int,
    elapsed: u32,
    input: Option<InputEvent>,
    flags: StateFlags,
)
    requires
        0 <= earlier < later < ts.len(),
        transition_fires(ts[earlier], elapsed, input, flags),
        transition_fires(ts[later], elapsed, input, flags),
    ensures
        first_match(ts, elapsed, input, flags) matches Some(j) && j <= earlier,
        (forall|k: int| 0 <= k < earlier ==> !transition_fires(#[trigger] ts[k], elapsed, input, flags))
            ==> first_match(ts, elapsed, input, flags) == Some(earlier),
{
    lemma_first_match(ts, elapsed, input, flags);
}

impl Transition {
    /// A transition with the given conditions, emissions and target.
    pub fn new(
        conditions: Vec<TransitionCondition>,
        key_event_emissions: Vec<KeyEvent>,
        internal_event_emissions: Vec<InternalEvent>,
        target: usize,
    ) -> (r: Transition)
        ensures
            r.conditions@ == conditions@,
            r.key_event_emissions@ == key_event_emissions@,
            r.internal_event_emissions@ == internal_event_emissions@,
            r.target == target,
    {
        Transition { conditions, key_event_emissions, internal_event_emissions, target }
    }

    /// Whether every condition holds. Evaluation stops at the first that
    /// does not.
    pub fn fires(&self, elapsed: u32, input: Option<InputEvent>, flags: StateFlags) -> (r: bool)
        ensures
            r == transition_fires(*self, elapsed, input, flags),
    {
        let mut i: usize = 0;
        while i < self.conditions.len()
            invariant
                i <= self.conditions@.len(),
                forall|k: int|
                    0 <= k < i ==> (#[trigger] self.conditions@[k]).holds(elapsed, input, flags),
            decreases self.conditions@.len() - i,
        {
            if !self.conditions[i].evaluate(elapsed, input, flags) {
                return false;
            }
            i = i + 1;
        }
        true
    }

    /// The key events, flag changes and target of the transition when it
    /// fires, and `None` when it does not.
    pub fn evaluate(&self, elapsed: u32, input: Option<InputEvent>, flags: StateFlags) -> (r:
        Option<(&[KeyEvent], &[InternalEvent], usize)>)
        ensures
            r is Some == transition_fires(*self, elapsed, input, flags),
            r matches Some((keys, internals, target)) ==> keys@ == self.key_event_emissions@
                && internals@ == self.internal_event_emissions@ && target == self.target,
    {
        if self.fires(elapsed, input, flags) {
            Some(
                (
                    self.key_event_emissions.as_slice(),
                    self.internal_event_emissions.as_slice(),
                    self.target,
                ),
            )
        } else {
            None
        }
    }
}

/// A mode of the machine: a name and its transitions in priority order.
#[derive(Debug)]
pub struct State {
    pub name: String,
    pub transitions: Vec<Transition>,
}

impl State {
    /// A state with the given name and transitions.
    pub fn new(name: String, transitions: Vec<Transition>) -> (r: State)
        ensures
            r.name@ == name@,
            r.transitions@ == transitions@,
    {
        State { name, transitions }
    }

    /// The state's name.
    pub fn name(&self) -> (r: &str)
        ensures
            r@ == self.name@,
    {
        self.name.as_str()
    }

    /// The position of the first transition, in list order, whose conditions
    /// all hold; later transitions are not evaluated once one fires.
    pub fn first_matching(&self, elapsed: u32, input: Option<InputEvent>, flags: StateFlags) -> (r:
        Option<usize>)
        ensures
            r matches Some(j) ==> first_match(self.transitions@, elapsed, input, flags) == Some(
                j as int,
            ),
            r matches Some(j) ==> j < self.transitions@.len(),
            r is None ==> first_match(self.transitions@, elapsed, input, flags) is None,
    {
        let mut i: usize = 0;
        while i < self.transitions.len()
            invariant
                i <= self.transitions@.len(),
                first_match(self.transitions@, elapsed, input, flags) == first_match_from(
                    self.transitions@,
                    i as int,
                    elapsed,
                    input,
                    flags,
                ),
            decreases self.transitions@.len() - i,
        {
            if self.transitions[i].fires(elapsed, input, flags) {
                proof {
                    lemma_first_match(self.transitions@, elapsed, input, flags);
                }
                return Some(i);
            }
            i = i + 1;
        }
        None
    }
}

} // verus!
