//! The serial console's commands: what each one does to the regulator and what
//! it answers.

use vstd::prelude::*;
use vstd::utf8::{encode_utf8, encode_utf8_decode_utf8, is_ascii_chars_encode_utf8};
use crate::mbus::{change_signals, mbus_state, mbus_state_set, AtomicMbusState, MBusState, Signals};
use crate::uart_tx::{lemma_payloads_of_one, lemma_payloads_of_two, payloads, UartTxMsg};

verus! {

/// The digit `0`.
pub const ASCII_ZERO: u8 = 0x30;

/// The digit `1`.
pub const ASCII_ONE: u8 = 0x31;

/// The list of commands.
pub const HELP_TEXT: &'static str = "- ?               : Print this message again\r\n\
    - b               : MBus regulator status\r\n\
    - b<n>            : set MBus regulator, n = 0 OFF, n = 1 ON\r\n\
    - h               : power down the system\r\n\n                          \
    - i               : read interrupt status\r\n\
    - i<x>            : clear interrupt index x\r\n\
    - v               : firmware and board information\r\n";

/// What the board and its firmware are, with the version of this package.
pub const FIRMWARE_TEXT: &'static str = "\r\n====== emonHP ======\r\n\
    - Firmware    : v0.1.0\r\n\
    - Board       : emonHP1 (arch. rev. 1)\r\n\r\n\
    - emonHP Copyright (C) 2026 Angus Logan\r\n\
    - Distributed under GPL3 license, see COPYING.md\r\n\
    - For Bear and Moose\r\n";

/// A command line, understood.
#[derive(Clone, Copy, Debug, PartialEq, Eq, Structural)]
pub enum Command {
    /// `?`
    Help,
    /// `b`
    BusStatus,
    /// `b0`
    BusOff,
    /// `b1`
    BusOn,
    /// `i`
    InterruptStatus,
    /// `i4`
    InterruptClear,
    /// `h`
    PowerDown,
    /// `v`
    FirmwareInfo,
    /// Anything else.
    Unknown,
}

/// The command that a line of text gives.
pub open spec fn command_of(text: Seq<char>) -> Command {
    if text == "?"@ {
        Command::Help
    } else if text == "b"@ {
        Command::BusStatus
    } else if text == "b0"@ {
        Command::BusOff
    } else if text == "b1"@ {
        Command::BusOn
    } else if text == "i"@ {
        Command::InterruptStatus
    } else if text == "i4"@ {
        Command::InterruptClear
    } else if text == "h"@ {
        Command::PowerDown
    } else if text == "v"@ {
        Command::FirmwareInfo
    } else {
        Command::Unknown
    }
}

/// Whether two texts are the same.
fn same_text(a: &str, b: &str) -> (same: bool)
    ensures
        same == (a@ == b@),
{
    let x = a.as_bytes();
    let y = b.as_bytes();
    if x.len() != y.len() {
        return false;
    }
    let mut i: usize = 0;
    while i < x.len()
        invariant
            i <= x@.len(),
            x@.len() == y@.len(),
            x@ == encode_utf8(a@),
            y@ == encode_utf8(b@),
            forall|j: int| 0 <= j < i ==> x@[j] == y@[j],
        decreases x@.len() - i,
    {
        if x[i] != y[i] {
            return false;
        }
        i += 1;
    }
    proof {
        assert(x@ =~= y@);
        encode_utf8_decode_utf8(a@);
        encode_utf8_decode_utf8(b@);
    }
    true
}

/// How far the answer to a command has come. The answer is given in steps: each
/// does what there is to do up to the next message, and the message is on its
/// way before the next step looks at the regulator again.
#[derive(Clone, Copy, Debug, PartialEq, Eq, Structural)]
pub enum ConfigTask {
    /// Nothing has been done yet.
    Start(Command),
    /// The label of the regulator's state is out; the state itself comes next.
    ReportState,
    /// The over-current digit of the interrupt status is out; the rest comes next.
    ReportTail,
    /// There is nothing left to do.
    Done,
}

/// What one step of an answer calls for, in this order.
#[derive(Clone, Copy, Debug, PartialEq, Eq)]
pub struct ConfigStep {
    /// The tasks to wake because the regulator's state changed.
    pub signals: Signals,
    /// Whether the shutdown countdown has to be started.
    pub shutdown: bool,
    /// The message to send. After a step without one the answer is complete.
    pub send: Option<UartTxMsg>,
}

/// The name under which the console reports a state.
pub open spec fn status_line(state: MBusState) -> &'static str {
    match state {
        MBusState::OverCurrentError => "Over Current Error\r\n",
        MBusState::Enabled => "Enabled\r\n",
        MBusState::Disabled => "Disabled\r\n",
    }
}

impl Command {
    /// The regulator's state once the command has been obeyed.
    pub open spec fn bus_after(self, state: MBusState) -> MBusState {
        match self {
            Command::BusOff => if state == MBusState::Enabled {
                MBusState::Disabled
            } else {
                state
            },
            Command::BusOn => MBusState::Enabled,
            Command::InterruptClear | Command::PowerDown => MBusState::Disabled,
            _ => state,
        }
    }

    /// The first message of the answer. Only switching on a regulator that is on
    /// already goes unanswered.
    pub open spec fn first_message(self, state: MBusState) -> Option<UartTxMsg> {
        match self {
            Command::Help => Some(UartTxMsg::Static(HELP_TEXT)),
            Command::BusStatus => Some(UartTxMsg::Static("> MBus: ")),
            Command::BusOff => Some(UartTxMsg::Static("> MBus: Disabled\r\n")),
            Command::BusOn => if state == MBusState::Enabled {
                None
            } else {
                Some(UartTxMsg::Static("> MBus: Enabled\r\n"))
            },
            Command::InterruptStatus => Some(
                UartTxMsg::Echo(
                    if state == MBusState::OverCurrentError {
                        ASCII_ONE
                    } else {
                        ASCII_ZERO
                    },
                ),
            ),
            Command::InterruptClear => Some(
                UartTxMsg::Static("> MBus disabled, interrupt cleared\r\n"),
            ),
            Command::PowerDown => Some(UartTxMsg::Static("> Shutting down...\r\n")),
            Command::FirmwareInfo => Some(UartTxMsg::Static(FIRMWARE_TEXT)),
            Command::Unknown => Some(UartTxMsg::Static("> Unknown command.\r\n")),
        }
    }
}

impl ConfigTask {
    /// Where the answer stands after a step.
    pub open spec fn next(self) -> ConfigTask {
        match self {
            ConfigTask::Start(Command::BusStatus) => ConfigTask::ReportState,
            ConfigTask::Start(Command::InterruptStatus) => ConfigTask::ReportTail,
            _ => ConfigTask::Done,
        }
    }

    /// What a step makes of the regulator's state: only the first one changes it.
    pub open spec fn bus_after(self, state: MBusState) -> MBusState {
        match self {
            ConfigTask::Start(command) => command.bus_after(state),
            _ => state,
        }
    }

    /// The message of a step that finds the regulator in `state`.
    pub open spec fn message(self, state: MBusState) -> Option<UartTxMsg> {
        match self {
            ConfigTask::Start(command) => command.first_message(state),
            ConfigTask::ReportState => Some(UartTxMsg::Static(status_line(state))),
            ConfigTask::ReportTail => Some(UartTxMsg::Static("0\r\n")),
            ConfigTask::Done => None,
        }
    }

    /// Takes the next step of the answer.
    pub fn step(&mut self, bus: &mut AtomicMbusState) -> (step: ConfigStep)
        ensures
            *final(self) == old(self).next(),
            final(bus)@ == old(self).bus_after(old(bus)@),
            step.signals == change_signals(old(bus)@, final(bus)@),
            !(*old(self) is Start) ==> final(bus)@ == old(bus)@ && step.signals == Signals::none(),
            step.shutdown == (*old(self) == ConfigTask::Start(Command::PowerDown)),
            step.send == old(self).message(old(bus)@),
    {
        let mut signals = Signals { enable: false, led: false, irq: false };
        let mut shutdown = false;
        let mut next = ConfigTask::Done;
        let send = match *self {
            ConfigTask::Start(command) => match command {
                Command::Help => Some(UartTxMsg::Static(HELP_TEXT)),
                Command::BusStatus => {
                    next = ConfigTask::ReportState;
                    Some(UartTxMsg::Static("> MBus: "))
                },
                Command::BusOff => {
                    if mbus_state(bus) == MBusState::Enabled {
                        signals = mbus_state_set(bus, MBusState::Disabled);
                    }
                    Some(UartTxMsg::Static("> MBus: Disabled\r\n"))
                },
                Command::BusOn => match mbus_state(bus) {
                    MBusState::Disabled | MBusState::OverCurrentError => {
                        signals = mbus_state_set(bus, MBusState::Enabled);
                        Some(UartTxMsg::Static("> MBus: Enabled\r\n"))
                    },
                    MBusState::Enabled => None,
                },
                Command::InterruptStatus => {
                    // Index 4 is the M-Bus over-current.
                    next = ConfigTask::ReportTail;
                    if mbus_state(bus) == MBusState::OverCurrentError {
                        Some(UartTxMsg::Echo(ASCII_ONE))
                    } else {
                        Some(UartTxMsg::Echo(ASCII_ZERO))
                    }
                },
                Command::InterruptClear => {
                    signals = mbus_state_set(bus, MBusState::Disabled);
                    Some(UartTxMsg::Static("> MBus disabled, interrupt cleared\r\n"))
                },
                Command::PowerDown => {
                    signals = mbus_state_set(bus, MBusState::Disabled);
                    shutdown = true;
                    Some(UartTxMsg::Static("> Shutting down...\r\n"))
                },
                Command::FirmwareInfo => Some(UartTxMsg::Static(FIRMWARE_TEXT)),
                Command::Unknown => Some(UartTxMsg::Static("> Unknown command.\r\n")),
            },
            ConfigTask::ReportState => Some(
                UartTxMsg::Static(
                    match mbus_state(bus) {
                        MBusState::OverCurrentError => "Over Current Error\r\n",
                        MBusState::Enabled => "Enabled\r\n",
                        MBusState::Disabled => "Disabled\r\n",
                    },
                ),
            ),
            ConfigTask::ReportTail => Some(UartTxMsg::Static("0\r\n")),
            ConfigTask::Done => None,
        };
        *self = next;
        ConfigStep { signals, shutdown, send }
    }
}

/// Begins the answer to a command line.
pub fn config_handler(cmd: &str) -> (task: ConfigTask)
    ensures
        task == ConfigTask::Start(command_of(cmd@)),
{
    let command = if same_text(cmd, "?") {
        Command::Help
    } else if same_text(cmd, "b") {
        Command::BusStatus
    } else if same_text(cmd, "b0") {
        Command::BusOff
    } else if same_text(cmd, "b1") {
        Command::BusOn
    } else if same_text(cmd, "i") {
        Command::InterruptStatus
    } else if same_text(cmd, "i4") {
        Command::InterruptClear
    } else if same_text(cmd, "h") {
        Command::PowerDown
    } else if same_text(cmd, "v") {
        Command::FirmwareInfo
    } else {
        Command::Unknown
    };
    ConfigTask::Start(command)
}

/// The word that a command is given by. There is none that gives `Unknown`.
pub open spec fn word_of(command: Command) -> Option<Seq<char>> {
    match command {
        Command::Help => Some("?"@),
        Command::BusStatus => Some("b"@),
        Command::BusOff => Some("b0"@),
        Command::BusOn => Some("b1"@),
        Command::InterruptStatus => Some("i"@),
        Command::InterruptClear => Some("i4"@),
        Command::PowerDown => Some("h"@),
        Command::FirmwareInfo => Some("v"@),
        Command::Unknown => None,
    }
}

/// Every command has a word of its own, and a line gives it exactly when it is that
/// word and nothing more.
pub proof fn law_one_word_per_command(command: Command, text: Seq<char>)
    requires
        command != Command::Unknown,
    ensures
        command_of(text) == command <==> word_of(command) == Some(text),
{
    reveal_strlit("?");
    reveal_strlit("b");
    reveal_strlit("b0");
    reveal_strlit("b1");
    reveal_strlit("i");
    reveal_strlit("i4");
    reveal_strlit("h");
    reveal_strlit("v");
    assert("?"@[0] == '?' && "b"@[0] == 'b' && "i"@[0] == 'i' && "h"@[0] == 'h' && "v"@[0] == 'v');
    assert("b0"@[1] == '0' && "b1"@[1] == '1' && "i4"@[1] == '4');
    assert("b"@.len() == 1 && "b0"@.len() == 2 && "b1"@.len() == 2);
    assert("i"@.len() == 1 && "i4"@.len() == 2);
}

/// All messages of an answer, from where it stands to its end, when nothing else
/// touches the regulator meanwhile.
pub open spec fn reply(task: ConfigTask, state: MBusState) -> Seq<UartTxMsg>
    decreases task.steps_left(),
{
    match task.message(state) {
        None => Seq::empty(),
        Some(message) => seq![message] + reply(task.next(), task.bus_after(state)),
    }
}

impl ConfigTask {
    /// A bound on the steps that an answer still takes.
    pub open spec fn steps_left(self) -> nat {
        match self {
            ConfigTask::Start(_) => 2,
            ConfigTask::ReportState | ConfigTask::ReportTail => 1,
            ConfigTask::Done => 0,
        }
    }
}

/// Every step brings an answer closer to its end, and a step without a message is
/// its end.
pub proof fn law_answers_end(task: ConfigTask, state: MBusState)
    ensures
        task != ConfigTask::Done ==> task.next().steps_left() < task.steps_left(),
        task.message(state) is None ==> task.next() == ConfigTask::Done,
        task == ConfigTask::Done ==> task.message(state) is None && task.bus_after(state)
            == state,
{
}

/// The whole answer to each command. Two commands are answered in two messages,
/// and switching on a regulator that is on is not answered at all.
pub proof fn law_whole_answer(command: Command, state: MBusState)
    ensures
        reply(ConfigTask::Start(command), state) == (match command {
            Command::BusStatus => seq![
                UartTxMsg::Static("> MBus: "),
                UartTxMsg::Static(status_line(state)),
            ],
            Command::InterruptStatus => seq![
                UartTxMsg::Echo(
                    if state == MBusState::OverCurrentError {
                        ASCII_ONE
                    } else {
                        ASCII_ZERO
                    },
                ),
                UartTxMsg::Static("0\r\n"),
            ],
            Command::BusOn => if state == MBusState::Enabled {
                Seq::empty()
            } else {
                seq![UartTxMsg::Static("> MBus: Enabled\r\n")]
            },
            Command::Help => seq![UartTxMsg::Static(HELP_TEXT)],
            Command::BusOff => seq![UartTxMsg::Static("> MBus: Disabled\r\n")],
            Command::InterruptClear => seq![
                UartTxMsg::Static("> MBus disabled, interrupt cleared\r\n"),
            ],
            Command::PowerDown => seq![UartTxMsg::Static("> Shutting down...\r\n")],
            Command::FirmwareInfo => seq![UartTxMsg::Static(FIRMWARE_TEXT)],
            Command::Unknown => seq![UartTxMsg::Static("> Unknown command.\r\n")],
        }),
{
    reveal_with_fuel(reply, 3);
}

/// Asked for the regulator's status, the console answers with the very bytes with
/// which it acknowledged switching it on or off.
pub proof fn law_status_repeats_acknowledgement(state: MBusState)
    requires
        state != MBusState::OverCurrentError,
    ensures
        payloads(reply(ConfigTask::Start(Command::BusStatus), state)) == payloads(
            seq![
                UartTxMsg::Static(
                    if state == MBusState::Enabled {
                        "> MBus: Enabled\r\n"
                    } else {
                        "> MBus: Disabled\r\n"
                    },
                ),
            ],
        ),
{
    reveal_strlit("> MBus: ");
    reveal_strlit("Enabled\r\n");
    reveal_strlit("Disabled\r\n");
    reveal_strlit("> MBus: Enabled\r\n");
    reveal_strlit("> MBus: Disabled\r\n");
    law_whole_answer(Command::BusStatus, state);
    let label = UartTxMsg::Static("> MBus: ");
    let name = UartTxMsg::Static(status_line(state));
    let whole = if state == MBusState::Enabled {
        "> MBus: Enabled\r\n"
    } else {
        "> MBus: Disabled\r\n"
    };
    lemma_payloads_of_two(label, name);
    lemma_payloads_of_one(UartTxMsg::Static(whole));
    is_ascii_chars_encode_utf8("> MBus: "@);
    is_ascii_chars_encode_utf8(status_line(state)@);
    is_ascii_chars_encode_utf8(whole@);
    assert(whole@ =~= "> MBus: "@ + status_line(state)@);
    assert(label.payload() + name.payload() =~= UartTxMsg::Static(whole).payload());
}

/// The regulator's state once a whole answer has been given, from where it stands to
/// its end, when nothing else touches the regulator meanwhile.
pub open spec fn bus_after_answer(task: ConfigTask, state: MBusState) -> MBusState
    decreases task.steps_left(),
{
    match task {
        ConfigTask::Done => state,
        _ => bus_after_answer(task.next(), task.bus_after(state)),
    }
}

/// Whether no step of a whole answer raises a signal, when nothing else touches the
/// regulator meanwhile.
pub open spec fn answer_is_quiet(task: ConfigTask, state: MBusState) -> bool
    decreases task.steps_left(),
{
    match task {
        ConfigTask::Done => true,
        _ => change_signals(state, task.bus_after(state)) == Signals::none() && answer_is_quiet(
            task.next(),
            task.bus_after(state),
        ),
    }
}

/// A command is obeyed before its first message, or not at all: whatever state a later
/// step of an answer finds, it leaves the regulator in it and wakes nobody.
pub proof fn law_later_steps_change_nothing(task: ConfigTask, state: MBusState)
    requires
        !(task is Start),
    ensures
        task.bus_after(state) == state,
        change_signals(state, task.bus_after(state)) == Signals::none(),
{
}

/// A step of an answer is followed by another only after asking for the status of the
/// regulator or of the interrupts.
pub proof fn law_only_status_answers_go_on(task: ConfigTask)
    ensures
        task.next() != ConfigTask::Done <==> task == ConfigTask::Start(Command::BusStatus) || task
            == ConfigTask::Start(Command::InterruptStatus),
        !(task.next() is Start),
{
}

/// A whole answer leaves the regulator as its first step did.
pub proof fn law_answer_obeys_once(command: Command, state: MBusState)
    ensures
        bus_after_answer(ConfigTask::Start(command), state) == ConfigTask::Start(command).bus_after(
            state,
        ),
        bus_after_answer(ConfigTask::Start(command), state) == command.bus_after(state),
{
    reveal_with_fuel(bus_after_answer, 4);
}

/// A fault is never cleared behind the user's back: switching the regulator off
/// leaves an over-current in place, and no step of any answer removes it but the first
/// of switching on, clearing the interrupt or powering down.
pub proof fn law_fault_stays_until_cleared(command: Command, task: ConfigTask)
    ensures
        command.bus_after(MBusState::OverCurrentError) != MBusState::OverCurrentError <==> (command
            == Command::BusOn || command == Command::InterruptClear || command
            == Command::PowerDown),
        task.bus_after(MBusState::OverCurrentError) != MBusState::OverCurrentError <==> (task
            == ConfigTask::Start(Command::BusOn) || task == ConfigTask::Start(
            Command::InterruptClear,
        ) || task == ConfigTask::Start(Command::PowerDown)),
        bus_after_answer(ConfigTask::Start(command), MBusState::OverCurrentError)
            != MBusState::OverCurrentError <==> (command == Command::BusOn || command
            == Command::InterruptClear || command == Command::PowerDown),
{
    law_answer_obeys_once(command, MBusState::OverCurrentError);
}

/// Only switching on turns the regulator on, and it does so from every state: no step
/// of any other answer does.
pub proof fn law_only_on_enables(command: Command, task: ConfigTask, state: MBusState)
    ensures
        command.bus_after(state) == MBusState::Enabled && state != MBusState::Enabled ==> command
            == Command::BusOn,
        task.bus_after(state) == MBusState::Enabled && state != MBusState::Enabled ==> task
            == ConfigTask::Start(Command::BusOn),
        bus_after_answer(ConfigTask::Start(command), state) == MBusState::Enabled && state
            != MBusState::Enabled ==> command == Command::BusOn,
        command == Command::BusOn ==> command.bus_after(state) == MBusState::Enabled
            && bus_after_answer(ConfigTask::Start(command), state) == MBusState::Enabled,
{
    law_answer_obeys_once(command, state);
}

/// No command, and no step of an answer, puts the regulator into the fault state.
pub proof fn law_commands_raise_no_fault(command: Command, task: ConfigTask, state: MBusState)
    ensures
        command.bus_after(state) == MBusState::OverCurrentError ==> state
            == MBusState::OverCurrentError,
        task.bus_after(state) == MBusState::OverCurrentError ==> state
            == MBusState::OverCurrentError,
{
}

/// Switching off, clearing the interrupt and powering down all leave the regulator
/// off.
pub proof fn law_off_commands_leave_bus_off(command: Command, state: MBusState)
    requires
        command == Command::BusOff || command == Command::InterruptClear || command
            == Command::PowerDown,
    ensures
        command.bus_after(state) != MBusState::Enabled,
        bus_after_answer(ConfigTask::Start(command), state) != MBusState::Enabled,
        state != MBusState::OverCurrentError ==> bus_after_answer(
            ConfigTask::Start(command),
            state,
        ) == MBusState::Disabled,
{
    law_answer_obeys_once(command, state);
}

/// Commands that ask, and lines that are no command, change nothing and wake nobody,
/// from the first step of the answer to its last.
pub proof fn law_questions_change_nothing(command: Command, state: MBusState)
    requires
        command == Command::Help || command == Command::BusStatus || command
            == Command::InterruptStatus || command == Command::FirmwareInfo || command
            == Command::Unknown,
    ensures
        command.bus_after(state) == state,
        bus_after_answer(ConfigTask::Start(command), state) == state,
        answer_is_quiet(ConfigTask::Start(command), state),
{
    law_answer_obeys_once(command, state);
    reveal_with_fuel(answer_is_quiet, 4);
}

/// How an answer begins depends on the regulator for two commands only: the interrupt
/// status tells a fault from everything else, and switching on is answered exactly when
/// there was something to switch.
pub proof fn law_what_answers_depend_on(command: Command, one: MBusState, other: MBusState)
    ensures
        command != Command::InterruptStatus && command != Command::BusOn ==> ConfigTask::Start(
            command,
        ).message(one) == ConfigTask::Start(command).message(other),
        command == Command::InterruptStatus ==> (ConfigTask::Start(command).message(one)
            == ConfigTask::Start(command).message(other) <==> (one == MBusState::OverCurrentError)
            == (other == MBusState::OverCurrentError)),
        ConfigTask::Start(command).message(one) is None <==> command == Command::BusOn && one
            == MBusState::Enabled,
        command == Command::BusOn && one != MBusState::Enabled && other != MBusState::Enabled
            ==> ConfigTask::Start(command).message(one) == ConfigTask::Start(command).message(other),
{
}

/// What the console says of the regulator is true, whatever happened to it since the
/// question was asked: the second half of a status answer names the state that its step
/// finds, each state by a name of its own.
pub proof fn law_status_tells_the_state_found(found: MBusState)
    ensures
        ConfigTask::Start(Command::BusStatus).next().message(found) == Some(
            UartTxMsg::Static(
                if found == MBusState::OverCurrentError {
                    "Over Current Error\r\n"
                } else if found == MBusState::Enabled {
                    "Enabled\r\n"
                } else {
                    "Disabled\r\n"
                },
            ),
        ),
        ConfigTask::Start(Command::InterruptStatus).next().message(found) == Some(
            UartTxMsg::Static("0\r\n"),
        ),
{
}

/// Obeying a command twice is obeying it once.
pub proof fn law_commands_are_idempotent(command: Command, state: MBusState)
    ensures
        command.bus_after(command.bus_after(state)) == command.bus_after(state),
{
}

} // verus!
