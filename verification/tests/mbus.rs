use emonhp::mbus::{
    mbus_oc_handler, mbus_state, mbus_state_set, AtomicMbusState, MBusState, Signals,
};

const STATES: [MBusState; 3] = [
    MBusState::Disabled,
    MBusState::Enabled,
    MBusState::OverCurrentError,
];

const NONE: Signals = Signals {
    enable: false,
    led: false,
    irq: false,
};

const ALL: Signals = Signals {
    enable: true,
    led: true,
    irq: true,
};

#[test]
fn codes_are_fixed() {
    assert_eq!(AtomicMbusState::encode(MBusState::Disabled), 0);
    assert_eq!(AtomicMbusState::encode(MBusState::Enabled), 1);
    assert_eq!(AtomicMbusState::encode(MBusState::OverCurrentError), 2);
}

#[test]
fn unknown_codes_read_as_disabled() {
    assert_eq!(AtomicMbusState::decode(0), MBusState::Disabled);
    assert_eq!(AtomicMbusState::decode(1), MBusState::Enabled);
    assert_eq!(AtomicMbusState::decode(2), MBusState::OverCurrentError);
    assert_eq!(AtomicMbusState::decode(3), MBusState::Disabled);
    assert_eq!(AtomicMbusState::decode(u32::MAX), MBusState::Disabled);
}

#[test]
fn codes_round_trip() {
    for state in STATES {
        assert_eq!(
            AtomicMbusState::decode(AtomicMbusState::encode(state)),
            state
        );
    }
    for code in [0u32, 1, 2] {
        assert_eq!(AtomicMbusState::encode(AtomicMbusState::decode(code)), code);
    }
    assert_ne!(AtomicMbusState::encode(AtomicMbusState::decode(3)), 3);
}

#[test]
fn load_gives_back_what_was_stored() {
    for from in STATES {
        for to in STATES {
            let mut bus = AtomicMbusState::new(from);
            assert_eq!(bus.load(), from);
            bus.store(to);
            assert_eq!(bus.load(), to);
        }
    }
}

#[test]
fn only_a_change_raises_signals() {
    for from in STATES {
        for to in STATES {
            let mut bus = AtomicMbusState::new(from);
            let signals = mbus_state_set(&mut bus, to);
            assert_eq!(mbus_state(&bus), to);
            assert_eq!(signals, if from == to { NONE } else { ALL });
            assert_eq!(mbus_state_set(&mut bus, to), NONE);
        }
    }
}

#[test]
fn over_current_trips_the_regulator() {
    let mut bus = AtomicMbusState::new(MBusState::Enabled);
    assert_eq!(mbus_oc_handler(&mut bus), ALL);
    assert_eq!(mbus_state(&bus), MBusState::OverCurrentError);
    assert_eq!(mbus_oc_handler(&mut bus), NONE);
    assert_eq!(mbus_state(&bus), MBusState::OverCurrentError);
}
