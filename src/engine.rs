//! The engine: the one mutable object, driven by clock readings and input.
use vstd::prelude::*;

use crate::clock::{millis_between, millis_of_ticks, not_earlier, ticks_between, HALF_RANGE};
use crate::event::{apply_all, apply_internal_events, InputEvent, KeyEvent};
use crate::flags::StateFlags;
use crate::transition::{first_match, lemma_first_match, transition_fires, State};

verus! {

/// Every transition of every state targets a state of `states`.
pub open spec fn table_wf(states: Seq<State>) -> bool {
    forall|s: int, j: int|
        0 <= s < states.len() && 0 <= j < states[s].transitions@.len()
            ==> (#[trigger] states[s].transitions@[j]).target < states.len()
}

/// The running machine: its state table, the sticky flags, the reading of
/// the clock's counter at which the current state was entered, the index of
/// the current state in the table, and the length of one tick of the clock,
/// `numerator / denominator` seconds.
#[derive(Debug)]
pub struct GlobalState {
    pub states: Vec<State>,
    pub flags: StateFlags,
    pub entered_state: u32,
    pub current_state: usize,
    pub numerator: u32,
    pub denominator: u32,
}

/// A clock reading that the engine cannot measure time from.
#[derive(Clone, Copy, Debug, PartialEq, Eq, Structural)]
pub enum ClockError {
    /// The reading is earlier than the entry into the current state.
    Backwards,
    /// The time since the entry does not fit in milliseconds.
    Overflow,
}

/// The engine and key output after evaluating `g` at time `now` on `input`,
/// with `elapsed` milliseconds spent in the current state: the first
/// transition of the current state that fires applies its flag changes,
/// moves to its target, restarts the clock at `now` and emits its key
/// events; with none firing, nothing changes and nothing is emitted.
pub open spec fn step_with_elapsed(
    g: GlobalState,
    now: u32,
    elapsed: u32,
    input: Option<InputEvent>,
) -> (GlobalState, Seq<KeyEvent>) {
    let ts = g.states@[g.current_state as int].transitions@;
    match first_match(ts, elapsed, input, g.flags) {
        None => (g, seq![]),
        Some(j) => (
            GlobalState {
                flags: apply_all(g.flags, ts[j].internal_event_emissions@),
                entered_state: now,
                current_state: ts[j].target,
                ..g
            },
            ts[j].key_event_emissions@,
        ),
    }
}

/// The engine and key output after evaluating `g` at clock reading `now`
/// on `input`: the ticks since the entry into the current state, across a
/// wrap of the counter, are converted to milliseconds and the step taken
/// with them; an error when `now` is earlier than the entry or the span
/// does not fit in milliseconds.
pub open spec fn step(g: GlobalState, now: u32, input: Option<InputEvent>) -> Result<
    (GlobalState, Seq<KeyEvent>),
    ClockError,
> {
    if !not_earlier(g.entered_state, now) {
        Err(ClockError::Backwards)
    } else {
        match g.elapsed_at(now) {
            None => Err(ClockError::Overflow),
            Some(elapsed) => Ok(step_with_elapsed(g, now, elapsed, input)),
        }
    }
}

/// `after` and `r` are what a step of `before` at reading `now` on `input`
/// gives: the engine after it and its key events, or its error with the
/// engine unchanged.
pub open spec fn stepped(
    before: GlobalState,
    after: GlobalState,
    now: u32,
    input: Option<InputEvent>,
    r: Result<Vec<KeyEvent>, ClockError>,
) -> bool {
    match r {
        Ok(keys) => step(before, now, input) == Ok::<(GlobalState, Seq<KeyEvent>), ClockError>(
            (after, keys@),
        ),
        Err(e) => step(before, now, input) == Err::<(GlobalState, Seq<KeyEvent>), ClockError>(e)
            && after == before,
    }
}

/// A step from a well-formed engine leaves it well formed.
pub proof fn lemma_step_wf(g: GlobalState, now: u32, elapsed: u32, input: Option<InputEvent>)
    requires
        g.wf(),
    ensures
        step_with_elapsed(g, now, elapsed, input).0.wf(),
        step_with_elapsed(g, now, elapsed, input).0.states@ == g.states@,
{
    let ts = g.states@[g.current_state as int].transitions@;
    lemma_first_match(ts, elapsed, input, g.flags);
    if let Some(j) = first_match(ts, elapsed, input, g.flags) {
        assert(g.states@[g.current_state as int].transitions@[j].target < g.states@.len());
    }
}

/// When no transition of the current state fires, a step changes neither
/// the current state, nor the flags, nor the entry time, and emits nothing.
pub proof fn lemma_no_match_is_noop(
    g: GlobalState,
    now: u32,
    elapsed: u32,
    input: Option<InputEvent>,
)
    requires
        g.wf(),
        forall|k: int|
            0 <= k < g.states@[g.current_state as int].transitions@.len() ==> !transition_fires(
                #[trigger] g.states@[g.current_state as int].transitions@[k],
                elapsed,
                input,
                g.flags,
            ),
    ensures
        step_with_elapsed(g, now, elapsed, input).0.current_state == g.current_state,
        step_with_elapsed(g, now, elapsed, input).0.flags == g.flags,
        step_with_elapsed(g, now, elapsed, input).0.entered_state == g.entered_state,
        step_with_elapsed(g, now, elapsed, input).0 == g,
        step_with_elapsed(g, now, elapsed, input).1 == Seq::<KeyEvent>::empty(),
{
    let ts = g.states@[g.current_state as int].transitions@;
    lemma_first_match(ts, elapsed, input, g.flags);
    if let Some(j) = first_match(ts, elapsed, input, g.flags) {
        assert(!transition_fires(ts[j], elapsed, input, g.flags));
    }
}

/// Right after a transition fires at reading `now`, including one that
/// loops back to the same state, the clock of the state restarts: the
/// entry time is `now`, a following reading `now` lies zero ticks past it
/// and is not earlier, and a step there converts that span of zero ticks.
pub proof fn lemma_elapsed_reset(
    g: GlobalState,
    now: u32,
    elapsed: u32,
    input: Option<InputEvent>,
    next_input: Option<InputEvent>,
)
    requires
        g.wf(),
        first_match(g.states@[g.current_state as int].transitions@, elapsed, input, g.flags) is Some,
    ensures
        ({
            let h = step_with_elapsed(g, now, elapsed, input).0;
            &&& h.wf()
            &&& h.entered_state == now
            &&& ticks_between(h.entered_state, now) == 0
            &&& not_earlier(h.entered_state, now)
            &&& step(h, now, next_input) == match millis_of_ticks(0, h.numerator, h.denominator) {
                None => Err(ClockError::Overflow),
                Some(ms) => Ok(step_with_elapsed(h, now, ms, next_input)),
            }
        }),
{
    lemma_step_wf(g, now, elapsed, input);
}

/// A copy of `events`.
fn copy_events(events: &Vec<KeyEvent>) -> (r: Vec<KeyEvent>)
    ensures
        r@ == events@,
{
    let mut r: Vec<KeyEvent> = Vec::new();
    let mut i: usize = 0;
    while i < events.len()
        invariant
            i <= events@.len(),
            r@ == events@.take(i as int),
        decreases events@.len() - i,
    {
        r.push(events[i]);
        assert(events@.take(i as int + 1) == events@.take(i as int).push(events@[i as int]));
        i = i + 1;
    }
    assert(events@.take(i as int) == events@);
    r
}

/// Whether every transition of `states` targets one of them.
pub fn valid_table(states: &Vec<State>) -> (r: bool)
    ensures
        r == table_wf(states@),
{
    let mut s: usize = 0;
    while s < states.len()
        invariant
            s <= states@.len(),
            forall|s2: int, j: int|
                0 <= s2 < s && 0 <= j < states@[s2].transitions@.len()
                    ==> (#[trigger] states@[s2].transitions@[j]).target < states@.len(),
        decreases states@.len() - s,
    {
        let ts = &states[s].transitions;
        let mut j: usize = 0;
        while j < ts.len()
            invariant
                s < states@.len(),
                ts@ == states@[s as int].transitions@,
                j <= ts@.len(),
                forall|s2: int, j2: int|
                    0 <= s2 < s && 0 <= j2 < states@[s2].transitions@.len()
                        ==> (#[trigger] states@[s2].transitions@[j2]).target < states@.len(),
                forall|j2: int| 0 <= j2 < j ==> (#[trigger] ts@[j2]).target < states@.len(),
            decreases ts@.len() - j,
        {
            if ts[j].target >= states.len() {
                assert(states@[s as int].transitions@[j as int].target >= states@.len());
                return false;
            }
            j = j + 1;
        }
        s = s + 1;
    }
    true
}

impl GlobalState {
    /// The table is well formed, the current state is one of its states and
    /// a tick lasts a defined time.
    pub open spec fn wf(self) -> bool {
        table_wf(self.states@) && self.current_state < self.states@.len() && self.denominator > 0
    }

    /// Milliseconds spent in the current state at reading `now`, as the
    /// clock's ticks since the entry convert to them.
    pub open spec fn elapsed_at(self, now: u32) -> Option<u32> {
        millis_of_ticks(ticks_between(self.entered_state, now), self.numerator, self.denominator)
    }

    /// An engine over `states` that starts in state `initial` at clock
    /// reading `now` with the given flags, for a clock whose tick lasts
    /// `numerator / denominator` seconds. `None` when `initial` is not a
    /// state of the table, a transition targets no state of it, or the
    /// denominator is zero.
    pub fn new(
        states: Vec<State>,
        initial: usize,
        flags: StateFlags,
        now: u32,
        numerator: u32,
        denominator: u32,
    ) -> (r: Option<GlobalState>)
        ensures
            r is Some <==> (table_wf(states@) && initial < states@.len() && denominator > 0),
            r matches Some(g) ==> g.wf() && g.states@ == states@ && g.current_state == initial
                && g.flags == flags && g.entered_state == now && g.numerator == numerator
                && g.denominator == denominator,
    {
        if initial < states.len() && denominator > 0 && valid_table(&states) {
            Some(
                GlobalState {
                    states,
                    flags,
                    entered_state: now,
                    current_state: initial,
                    numerator,
                    denominator,
                },
            )
        } else {
            None
        }
    }

    /// Whether the engine is well formed; every engine that `new` made is,
    /// and stays so through `tick` and `push`.
    pub fn is_well_formed(&self) -> (r: bool)
        ensures
            r == self.wf(),
    {
        self.current_state < self.states.len() && self.denominator > 0 && valid_table(&self.states)
    }

    /// The current state.
    pub fn current(&self) -> (r: &State)
        requires
            self.wf(),
        ensures
            *r == self.states@[self.current_state as int],
    {
        &self.states[self.current_state]
    }

    /// Commits transition `j` of the current state at time `now`: applies its
    /// flag changes in order, switches to its target and restarts the clock.
    pub fn do_transition(&mut self, j: usize, now: u32)
        requires
            old(self).wf(),
            j < old(self).states@[old(self).current_state as int].transitions@.len(),
        ensures
            ({
                let t = old(self).states@[old(self).current_state as int].transitions@[j as int];
                *final(self) == (GlobalState {
                    flags: apply_all(old(self).flags, t.internal_event_emissions@),
                    entered_state: now,
                    current_state: t.target,
                    ..*old(self)
                })
            }),
    {
        let cur = self.current_state;
        apply_internal_events(&mut self.flags, &self.states[cur].transitions[j].internal_event_emissions);
        self.current_state = self.states[cur].transitions[j].target;
        self.entered_state = now;
    }

    /// Evaluates the current state at clock reading `now` on `input`, with
    /// `elapsed` milliseconds spent in it, and commits the first transition
    /// that fires, returning its key events in order.
    pub fn evaluate_at(&mut self, now: u32, elapsed: u32, input: Option<InputEvent>) -> (r: Vec<
        KeyEvent,
    >)
        requires
            old(self).wf(),
        ensures
            final(self).wf(),
            (*final(self), r@) == step_with_elapsed(*old(self), now, elapsed, input),
    {
        proof {
            lemma_step_wf(*self, now, elapsed, input);
        }
        let cur = self.current_state;
        match self.states[cur].first_matching(elapsed, input, self.flags) {
            Some(j) => {
                let keys = copy_events(&self.states[cur].transitions[j].key_event_emissions);
                self.do_transition(j, now);
                keys
            },
            None => Vec::new(),
        }
    }

    /// Measures the milliseconds since the entry into the current state at
    /// reading `now`, and evaluates with them.
    fn evaluate_now(&mut self, now: u32, input: Option<InputEvent>) -> (r: Result<
        Vec<KeyEvent>,
        ClockError,
    >)
        requires
            old(self).wf(),
        ensures
            final(self).wf(),
            stepped(*old(self), *final(self), now, input, r),
            old(self).entered_state == now ==> (r matches Ok(keys) ==> (*final(self), keys@)
                == step_with_elapsed(*old(self), now, 0, input)),
    {
        if now.wrapping_sub(self.entered_state) > HALF_RANGE {
            return Err(ClockError::Backwards);
        }
        match millis_between(self.entered_state, now, self.numerator, self.denominator) {
            Some(elapsed) => Ok(self.evaluate_at(now, elapsed, input)),
            None => Err(ClockError::Overflow),
        }
    }

    /// Evaluates on the passage of time alone, with no input event, at clock
    /// reading `now`.
    pub fn tick(&mut self, now: u32) -> (r: Result<Vec<KeyEvent>, ClockError>)
        requires
            old(self).wf(),
        ensures
            final(self).wf(),
            stepped(*old(self), *final(self), now, None, r),
            old(self).entered_state == now ==> (r matches Ok(keys) ==> (*final(self), keys@)
                == step_with_elapsed(*old(self), now, 0, None)),
    {
        self.evaluate_now(now, None)
    }

    /// Evaluates on one input event received at clock reading `now`.
    pub fn push(&mut self, now: u32, event: InputEvent) -> (r: Result<Vec<KeyEvent>, ClockError>)
        requires
            old(self).wf(),
        ensures
            final(self).wf(),
            stepped(*old(self), *final(self), now, Some(event), r),
            old(self).entered_state == now ==> (r matches Ok(keys) ==> (*final(self), keys@)
                == step_with_elapsed(*old(self), now, 0, Some(event))),
    {
        self.evaluate_now(now, Some(event))
    }
}

} // verus!
