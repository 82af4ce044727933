use keyboard_fsm::condition::TransitionCondition;
use keyboard_fsm::engine::GlobalState;
use keyboard_fsm::event::{InputEvent, InternalEvent, KeyEvent};
use keyboard_fsm::flags::StateFlags;
use keyboard_fsm::transition::{State, Transition};

/// A counter of one tick per millisecond, advanced by hand.
struct TickerClock(u32);

impl TickerClock {
    fn tick(&mut self) {
        self.0 += 1;
    }

    fn tick_n(&mut self, n: u32) {
        self.0 += n;
    }

    fn now(&self) -> u32 {
        self.0
    }
}

fn transition(
    conditions: Vec<TransitionCondition>,
    keys: Vec<KeyEvent>,
    internals: Vec<InternalEvent>,
    target: usize,
) -> Transition {
    Transition::new(conditions, keys, internals, target)
}

fn state(name: &str, transitions: Vec<Transition>) -> State {
    State::new(name.to_string(), transitions)
}

fn current_name(g: &GlobalState) -> &str {
    g.current().name()
}

#[test]
fn basic() {
    const A: usize = 0;
    const B: usize = 1;
    let states = vec![
        state(
            "A",
            vec![transition(
                vec![TransitionCondition::pressed_single(0)],
                vec![KeyEvent::Press(0)],
                vec![],
                B,
            )],
        ),
        state(
            "B",
            vec![transition(
                vec![TransitionCondition::depressed_single(0)],
                vec![KeyEvent::Depress(0)],
                vec![],
                A,
            )],
        ),
    ];

    let clock = TickerClock(0);
    let now = clock.now();

    let mut state = GlobalState::new(states, A, StateFlags::empty(), now, 1, 1_000).unwrap();

    for _ in 0..10 {
        let s = state.push(now, InputEvent::Press(0)).unwrap();
        assert_eq!(s, vec![KeyEvent::Press(0)]);
        assert_eq!(state.current_state, B);

        let s = state.push(now, InputEvent::Depress(0)).unwrap();
        assert_eq!(s, vec![KeyEvent::Depress(0)]);
        assert_eq!(state.current_state, A);
    }
}

#[test]
fn mod_tap_better() {
    const ROOT: usize = 0;
    const PRESS_1: usize = 1;
    const MOD: usize = 2;

    let root_0 = transition(vec![TransitionCondition::pressed_single(0)], vec![], vec![], MOD);
    let root_press_1 = transition(
        vec![TransitionCondition::pressed_single(1)],
        vec![KeyEvent::Press(1)],
        vec![],
        PRESS_1,
    );
    let root_reset = transition(
        vec![
            TransitionCondition::FlagsSet(StateFlags::shft()),
            TransitionCondition::depressed_single(0),
        ],
        vec![KeyEvent::Depress(2)],
        vec![InternalEvent::UnsetFlags(StateFlags::shft())],
        ROOT,
    );
    let press_1_depress = transition(
        vec![TransitionCondition::depressed_single(1)],
        vec![KeyEvent::Depress(1)],
        vec![],
        ROOT,
    );
    let mod_tap_trans = transition(
        vec![TransitionCondition::depressed_single(0), TransitionCondition::ElapsedLess(5)],
        vec![KeyEvent::Press(0), KeyEvent::Depress(0)],
        vec![],
        ROOT,
    );
    let mod_tap_other_trans = transition(
        vec![TransitionCondition::pressed_single(1)],
        vec![KeyEvent::Press(2), KeyEvent::Press(1)],
        vec![InternalEvent::SetFlags(StateFlags::shft())],
        PRESS_1,
    );
    let mod_hold_trans = transition(
        vec![TransitionCondition::ElapsedGreaterOrEqual(5)],
        vec![KeyEvent::Press(2)],
        vec![InternalEvent::SetFlags(StateFlags::shft())],
        ROOT,
    );
    let states = vec![
        state("ROOT", vec![root_0, root_press_1, root_reset]),
        state("PRESS_1", vec![press_1_depress]),
        state("MOD", vec![mod_tap_trans, mod_tap_other_trans, mod_hold_trans]),
    ];

    let mut clock = TickerClock(0);

    let mut state = GlobalState::new(states, ROOT, StateFlags::empty(), clock.now(), 1, 1_000).unwrap();

    for _ in 0..10 {
        assert_eq!(state.flags, StateFlags::empty());
        assert_eq!(current_name(&state), "ROOT");

        let s = state.push(clock.now(), InputEvent::Press(0)).unwrap();
        assert_eq!(current_name(&state), "MOD");
        assert_eq!(s, vec![]);

        clock.tick();

        let s = state.push(clock.now(), InputEvent::Depress(0)).unwrap();
        assert_eq!(current_name(&state), "ROOT");
        assert_eq!(state.flags, StateFlags::empty());
        assert_eq!(s, vec![KeyEvent::Press(0), KeyEvent::Depress(0)]);

        clock.tick();

        let s = state.push(clock.now(), InputEvent::Press(0)).unwrap();
        assert_eq!(current_name(&state), "MOD");
        assert_eq!(s, vec![]);

        clock.tick_n(8);

        let s = state.tick(clock.now()).unwrap();
        assert_eq!(current_name(&state), "ROOT");
        assert_eq!(s, vec![KeyEvent::Press(2)]);

        clock.tick();

        let s = state.push(clock.now(), InputEvent::Press(1)).unwrap();
        assert_eq!(current_name(&state), "PRESS_1");
        assert_eq!(s, vec![KeyEvent::Press(1)]);

        clock.tick();
        let s = state.push(clock.now(), InputEvent::Depress(1)).unwrap();
        assert_eq!(current_name(&state), "ROOT");
        assert_eq!(s, vec![KeyEvent::Depress(1)]);

        clock.tick();

        let s = state.push(clock.now(), InputEvent::Depress(0)).unwrap();
        assert_eq!(current_name(&state), "ROOT");
        assert_eq!(s, vec![KeyEvent::Depress(2)]);
        assert_eq!(state.flags, StateFlags::empty());

        clock.tick();

        let s = state.push(clock.now(), InputEvent::Press(0)).unwrap();
        assert_eq!(current_name(&state), "MOD");
        assert_eq!(s, vec![]);

        clock.tick();

        let s = state.push(clock.now(), InputEvent::Press(1)).unwrap();
        assert_eq!(current_name(&state), "PRESS_1");
        assert_eq!(s, vec![KeyEvent::Press(2), KeyEvent::Press(1)]);

        clock.tick();
        let s = state.push(clock.now(), InputEvent::Depress(1)).unwrap();
        assert_eq!(current_name(&state), "ROOT");
        assert_eq!(s, vec![KeyEvent::Depress(1)]);

        clock.tick();

        let s = state.push(clock.now(), InputEvent::Press(1)).unwrap();
        assert_eq!(current_name(&state), "PRESS_1");
        assert_eq!(s, vec![KeyEvent::Press(1)]);

        clock.tick();

        let s = state.push(clock.now(), InputEvent::Depress(1)).unwrap();
        assert_eq!(current_name(&state), "ROOT");
        assert_eq!(s, vec![KeyEvent::Depress(1)]);

        clock.tick();

        let s = state.push(clock.now(), InputEvent::Depress(0)).unwrap();
        assert_eq!(current_name(&state), "ROOT");
        assert_eq!(s, vec![KeyEvent::Depress(2)]);
        assert_eq!(state.flags, StateFlags::empty());

        clock.tick()
    }
}

#[test]
fn mod_tap() {
    const ROOT: usize = 0;
    const MOD: usize = 1;
    const MOD_HOLD: usize = 2;

    let root_0 = transition(vec![TransitionCondition::pressed_single(0)], vec![], vec![], MOD);
    let mod_tap_trans = transition(
        vec![TransitionCondition::depressed_single(0), TransitionCondition::ElapsedLess(5)],
        vec![KeyEvent::Press(0), KeyEvent::Depress(0)],
        vec![],
        ROOT,
    );
    let mod_tap_other_trans = transition(
        vec![TransitionCondition::pressed_single(1)],
        vec![KeyEvent::Press(2), KeyEvent::Press(1), KeyEvent::Depress(1)],
        vec![InternalEvent::SetFlags(StateFlags::shft())],
        MOD_HOLD,
    );
    let mod_hold_trans = transition(
        vec![TransitionCondition::ElapsedGreaterOrEqual(5)],
        vec![KeyEvent::Press(2)],
        vec![InternalEvent::SetFlags(StateFlags::shft())],
        MOD_HOLD,
    );
    let mod_hold_depress_trans = transition(
        vec![TransitionCondition::depressed_single(0)],
        vec![KeyEvent::Depress(2)],
        vec![InternalEvent::UnsetFlags(StateFlags::shft())],
        ROOT,
    );
    let mod_hold_other_trans = transition(
        vec![TransitionCondition::pressed_single(1)],
        vec![KeyEvent::Press(1), KeyEvent::Depress(1)],
        vec![],
        MOD_HOLD,
    );
    let states = vec![
        state("ROOT", vec![root_0]),
        state("MOD", vec![mod_tap_trans, mod_tap_other_trans, mod_hold_trans]),
        state("MOD_HOLD", vec![mod_hold_depress_trans, mod_hold_other_trans]),
    ];

    let mut clock = TickerClock(0);

    let mut state = GlobalState::new(states, ROOT, StateFlags::empty(), clock.now(), 1, 1_000).unwrap();

    for _ in 0..10 {
        let s = state.push(clock.now(), InputEvent::Press(0)).unwrap();
        assert_eq!(current_name(&state), "MOD");
        assert_eq!(s, vec![]);

        clock.tick();

        let s = state.push(clock.now(), InputEvent::Depress(0)).unwrap();
        assert_eq!(current_name(&state), "ROOT");
        assert_eq!(s, vec![KeyEvent::Press(0), KeyEvent::Depress(0)]);

        let s = state.push(clock.now(), InputEvent::Press(0)).unwrap();
        assert_eq!(current_name(&state), "MOD");
        assert_eq!(s, vec![]);

        clock.tick_n(8);

        let s = state.tick(clock.now()).unwrap();
        assert_eq!(current_name(&state), "MOD_HOLD");
        assert_eq!(s, vec![KeyEvent::Press(2)]);

        clock.tick();

        let s = state.push(clock.now(), InputEvent::Press(1)).unwrap();
        assert_eq!(current_name(&state), "MOD_HOLD");
        assert_eq!(s, vec![KeyEvent::Press(1), KeyEvent::Depress(1)]);

        clock.tick();

        let s = state.push(clock.now(), InputEvent::Depress(0)).unwrap();
        assert_eq!(current_name(&state), "ROOT");
        assert_eq!(s, vec![KeyEvent::Depress(2)]);
        assert_eq!(state.flags, StateFlags::empty());

        clock.tick();

        let s = state.push(clock.now(), InputEvent::Press(0)).unwrap();
        assert_eq!(current_name(&state), "MOD");
        assert_eq!(s, vec![]);

        clock.tick();

        let s = state.push(clock.now(), InputEvent::Press(1)).unwrap();
        assert_eq!(current_name(&state), "MOD_HOLD");
        assert_eq!(s, vec![KeyEvent::Press(2), KeyEvent::Press(1), KeyEvent::Depress(1)]);

        clock.tick();

        let s = state.push(clock.now(), InputEvent::Press(1)).unwrap();
        assert_eq!(current_name(&state), "MOD_HOLD");
        assert_eq!(s, vec![KeyEvent::Press(1), KeyEvent::Depress(1)]);

        clock.tick();

        let s = state.push(clock.now(), InputEvent::Depress(0)).unwrap();
        assert_eq!(current_name(&state), "ROOT");
        assert_eq!(s, vec![KeyEvent::Depress(2)]);
        assert_eq!(state.flags, StateFlags::empty());
    }
}
