use trigger::Signal;
use trigger::State;

fn level(state: &State) -> bool {
    bool::from(state.clone())
}

#[test]
fn default_detector_walkthrough() {
    let mut state = State::default();
    assert!(!state.update(false).changed());
    assert!(state.update(true).raised());
    assert!(!state.update(true).changed());
    assert!(state.update(false).fell());
}

#[test]
fn default_detector_signals() {
    let mut state = State::default();
    assert_eq!(state.update(false), Signal::Level);
    assert_eq!(state.update(true), Signal::Raised);
    assert_eq!(state.update(true), Signal::Level);
    assert_eq!(state.update(false), Signal::Fell);
}

#[test]
fn default_is_low() {
    assert!(!level(&State::default()));
    let by_trait: State = Default::default();
    assert!(!level(&by_trait));
}

#[test]
fn from_sets_the_level_without_a_signal() {
    assert!(level(&State::from(true)));
    assert!(!level(&State::from(false)));
    let mut high = State::from(true);
    assert_eq!(high.update(true), Signal::Level);
}

#[test]
fn conversions_are_lossless() {
    for level in [false, true] {
        let state: State = level.into();
        let back: bool = state.into();
        assert_eq!(back, level);
        let state = <State as From<bool>>::from(level);
        assert_eq!(<bool as From<State>>::from(state), level);
    }
}

#[test]
fn update_classifies_every_pair() {
    for a in [false, true] {
        for b in [false, true] {
            let mut state = State::from(a);
            let signal = state.update(b);
            assert_eq!(signal == Signal::Raised, !a && b);
            assert_eq!(signal == Signal::Fell, a && !b);
            assert_eq!(signal == Signal::Level, a == b);
        }
    }
}

#[test]
fn state_is_the_last_input() {
    let inputs = [true, true, false, true, false, false, false, true];
    for start in [false, true] {
        let mut state = State::from(start);
        for input in inputs {
            state.update(input);
            assert_eq!(level(&state), input);
        }
    }
}

#[test]
fn repeated_input_is_level() {
    for start in [false, true] {
        for x in [false, true] {
            let mut state = State::from(start);
            state.update(x);
            assert_eq!(state.update(x), Signal::Level);
            assert_eq!(state.update(x), Signal::Level);
        }
    }
}

#[test]
fn codes_add_up_to_the_net_change() {
    let inputs = [true, false, false, true, true, true, false, true];
    for start in [false, true] {
        let mut state = State::from(start);
        let mut sum = 0i32;
        for input in inputs {
            sum += i32::from(state.update(input).code());
            assert_eq!(sum, i32::from(input) - i32::from(start));
        }
    }
}

#[test]
fn edges_alternate() {
    let inputs = [true, true, false, true, false, false, true, true, false];
    let mut state = State::default();
    let mut last_edge = Signal::Fell;
    for input in inputs {
        let signal = state.update(input);
        if signal.changed() {
            assert_ne!(signal, last_edge);
            last_edge = signal;
        }
    }
}

#[test]
fn clone_keeps_the_level() {
    let mut state = State::from(true);
    let mut copy = state.clone();
    assert_eq!(copy.update(false), Signal::Fell);
    assert_eq!(state.update(false), Signal::Fell);
}

#[test]
fn state_prints() {
    assert_eq!(format!("{:?}", State::from(true)), "State { state: true }");
}
