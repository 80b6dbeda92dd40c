use emonhp::config::{
    config_handler, Command, ConfigStep, ConfigTask, FIRMWARE_TEXT, HELP_TEXT,
};
use emonhp::mbus::{AtomicMbusState, MBusState, Signals};
use emonhp::uart_tx::UartTxMsg;

const STATES: [MBusState; 3] = [
    MBusState::Disabled,
    MBusState::Enabled,
    MBusState::OverCurrentError,
];

const NONE: Signals = Signals {
    enable: false,
    led: false,
    irq: false,
};

const ALL: Signals = Signals {
    enable: true,
    led: true,
    irq: true,
};

/// The bytes that a message puts on the link.
fn bytes(msg: UartTxMsg) -> Vec<u8> {
    match msg {
        UartTxMsg::Echo(byte) => vec![byte],
        UartTxMsg::Static(text) => text.as_bytes().to_vec(),
    }
}

/// Runs a command line to its end: the text of the answer, the regulator's state
/// afterwards, whether anyone was woken, and whether the shutdown was started.
fn run(line: &str, state: MBusState) -> (String, MBusState, Signals, bool) {
    let mut bus = AtomicMbusState::new(state);
    let mut task = config_handler(line);
    let mut out = Vec::new();
    let mut signals = NONE;
    let mut shutdown = false;
    loop {
        let step = task.step(&mut bus);
        signals.enable |= step.signals.enable;
        signals.led |= step.signals.led;
        signals.irq |= step.signals.irq;
        shutdown |= step.shutdown;
        match step.send {
            Some(msg) => out.extend(bytes(msg)),
            None => break,
        }
    }
    assert_eq!(task, ConfigTask::Done);
    (
        String::from_utf8(out).unwrap(),
        bus.load(),
        signals,
        shutdown,
    )
}

#[test]
fn words_give_commands() {
    let words = [
        ("?", Command::Help),
        ("b", Command::BusStatus),
        ("b0", Command::BusOff),
        ("b1", Command::BusOn),
        ("i", Command::InterruptStatus),
        ("i4", Command::InterruptClear),
        ("h", Command::PowerDown),
        ("v", Command::FirmwareInfo),
    ];
    for (word, command) in words {
        assert_eq!(config_handler(word), ConfigTask::Start(command));
    }
}

#[test]
fn anything_else_is_unknown() {
    for line in [
        "", " ", "B", "b ", " b", "b2", "b00", "i0", "i5", "i44", "hh", "vv", "??", "help", "\r",
        "b\r", "\u{e9}", "b\u{661}",
    ] {
        assert_eq!(config_handler(line), ConfigTask::Start(Command::Unknown));
    }
}

#[test]
fn help_lists_the_commands() {
    for state in STATES {
        let (text, after, signals, shutdown) = run("?", state);
        assert_eq!(text, HELP_TEXT);
        assert_eq!((after, signals, shutdown), (state, NONE, false));
    }
    let expected = [
        "- ?               : Print this message again\r\n",
        "- b               : MBus regulator status\r\n",
        "- b<n>            : set MBus regulator, n = 0 OFF, n = 1 ON\r\n",
        "- h               : power down the system\r\n",
        "\n                          ",
        "- i               : read interrupt status\r\n",
        "- i<x>            : clear interrupt index x\r\n",
        "- v               : firmware and board information\r\n",
    ]
    .concat();
    assert_eq!(HELP_TEXT, expected);
}

#[test]
fn status_names_the_state() {
    let (text, after, signals, shutdown) = run("b", MBusState::Enabled);
    assert_eq!(text, "> MBus: Enabled\r\n");
    assert_eq!((after, signals, shutdown), (MBusState::Enabled, NONE, false));
    assert_eq!(run("b", MBusState::Disabled).0, "> MBus: Disabled\r\n");
    assert_eq!(
        run("b", MBusState::OverCurrentError).0,
        "> MBus: Over Current Error\r\n"
    );
}

#[test]
fn status_is_read_after_its_label() {
    let mut bus = AtomicMbusState::new(MBusState::Enabled);
    let mut task = config_handler("b");
    assert_eq!(
        task.step(&mut bus).send,
        Some(UartTxMsg::Static("> MBus: "))
    );
    assert_eq!(task, ConfigTask::ReportState);
    bus.store(MBusState::OverCurrentError);
    assert_eq!(
        task.step(&mut bus).send,
        Some(UartTxMsg::Static("Over Current Error\r\n"))
    );
    assert_eq!(task, ConfigTask::Done);
    assert_eq!(
        task.step(&mut bus),
        ConfigStep {
            signals: NONE,
            shutdown: false,
            send: None
        }
    );
}

#[test]
fn status_repeats_the_acknowledgement() {
    let (on, state, _, _) = run("b1", MBusState::Disabled);
    assert_eq!(run("b", state).0, on);
    let (off, state, _, _) = run("b0", MBusState::Enabled);
    assert_eq!(run("b", state).0, off);
}

#[test]
fn off_disables_an_enabled_regulator_only() {
    let (text, after, signals, shutdown) = run("b0", MBusState::Enabled);
    assert_eq!(text, "> MBus: Disabled\r\n");
    assert_eq!((after, signals, shutdown), (MBusState::Disabled, ALL, false));

    let (text, after, signals, _) = run("b0", MBusState::Disabled);
    assert_eq!(text, "> MBus: Disabled\r\n");
    assert_eq!((after, signals), (MBusState::Disabled, NONE));

    let (text, after, signals, _) = run("b0", MBusState::OverCurrentError);
    assert_eq!(text, "> MBus: Disabled\r\n");
    assert_eq!((after, signals), (MBusState::OverCurrentError, NONE));
}

#[test]
fn on_enables_and_is_silent_when_on_already() {
    for state in [MBusState::Disabled, MBusState::OverCurrentError] {
        let (text, after, signals, shutdown) = run("b1", state);
        assert_eq!(text, "> MBus: Enabled\r\n");
        assert_eq!((after, signals, shutdown), (MBusState::Enabled, ALL, false));
    }
    let (text, after, signals, _) = run("b1", MBusState::Enabled);
    assert_eq!(text, "");
    assert_eq!((after, signals), (MBusState::Enabled, NONE));
}

#[test]
fn interrupt_status_shows_the_fault() {
    assert_eq!(run("i", MBusState::OverCurrentError).0, "10\r\n");
    assert_eq!(run("i", MBusState::Enabled).0, "00\r\n");
    assert_eq!(run("i", MBusState::Disabled).0, "00\r\n");
    let (_, after, signals, shutdown) = run("i", MBusState::OverCurrentError);
    assert_eq!(
        (after, signals, shutdown),
        (MBusState::OverCurrentError, NONE, false)
    );
}

#[test]
fn clearing_the_interrupt_disables() {
    for state in STATES {
        let (text, after, signals, shutdown) = run("i4", state);
        assert_eq!(text, "> MBus disabled, interrupt cleared\r\n");
        assert_eq!(after, MBusState::Disabled);
        assert_eq!(
            signals,
            if state == MBusState::Disabled { NONE } else { ALL }
        );
        assert!(!shutdown);
    }
}

#[test]
fn power_down_disables_and_starts_the_shutdown() {
    for state in STATES {
        let (text, after, signals, shutdown) = run("h", state);
        assert_eq!(text, "> Shutting down...\r\n");
        assert_eq!(after, MBusState::Disabled);
        assert_eq!(
            signals,
            if state == MBusState::Disabled { NONE } else { ALL }
        );
        assert!(shutdown);
    }
}

#[test]
fn firmware_banner_shows_the_version() {
    let (text, after, signals, shutdown) = run("v", MBusState::Enabled);
    let expected = [
        "\r\n====== emonHP ======\r\n",
        "- Firmware    : v0.1.0\r\n",
        "- Board       : emonHP1 (arch. rev. 1)\r\n\r\n",
        "- emonHP Copyright (C) 2026 Angus Logan\r\n",
        "- Distributed under GPL3 license, see COPYING.md\r\n",
        "- For Bear and Moose\r\n",
    ]
    .concat();
    assert_eq!(text, expected);
    assert_eq!(FIRMWARE_TEXT, expected);
    assert_eq!((after, signals, shutdown), (MBusState::Enabled, NONE, false));
}

#[test]
fn unknown_commands_change_nothing() {
    for state in STATES {
        let (text, after, signals, shutdown) = run("nonsense", state);
        assert_eq!(text, "> Unknown command.\r\n");
        assert_eq!((after, signals, shutdown), (state, NONE, false));
    }
}

#[test]
fn commands_twice_are_commands_once() {
    for word in ["?", "b", "b0", "b1", "i", "i4", "h", "v", "x"] {
        for state in STATES {
            let once = run(word, state).1;
            let (_, twice, signals, _) = run(word, once);
            assert_eq!(twice, once);
            assert_eq!(signals, NONE);
        }
    }
}

#[test]
fn banner_is_one_message() {
    let mut bus = AtomicMbusState::new(MBusState::Disabled);
    let mut task = config_handler("v");
    assert_eq!(
        task.step(&mut bus).send,
        Some(UartTxMsg::Static(FIRMWARE_TEXT))
    );
    assert_eq!(task.step(&mut bus).send, None);
}
