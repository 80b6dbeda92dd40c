use emonhp::config::{Command, ConfigTask};
use emonhp::uart_rx::{RxAction, RxReply, UartRx};
use emonhp::uart_tx::UartTxMsg;

const TOO_LONG: RxAction = RxAction::Send(UartTxMsg::Static("> Command too long\r\n"));
const RUBOUT: RxAction = RxAction::Send(UartTxMsg::Static("\x08 \x08"));

fn runs(command: Command) -> RxAction {
    RxAction::Run(ConfigTask::Start(command))
}

/// Feeds `input`, checks every echo, and returns what was called for besides.
fn feed(rx: &mut UartRx, input: &[u8]) -> Vec<RxAction> {
    let mut actions = Vec::new();
    for &byte in input {
        let reply = rx.receive(byte);
        assert_eq!(reply.echo, UartTxMsg::Echo(byte));
        if reply.action != RxAction::Nothing {
            actions.push(reply.action);
        }
    }
    actions
}

fn feed_fresh(input: &[u8]) -> Vec<RxAction> {
    feed(&mut UartRx::new(), input)
}

#[test]
fn every_byte_is_echoed() {
    for byte in 0..=255u8 {
        let mut rx = UartRx::new();
        assert_eq!(rx.receive(byte).echo, UartTxMsg::Echo(byte));
    }
}

#[test]
fn text_calls_for_nothing_but_its_echo() {
    let mut rx = UartRx::new();
    assert_eq!(
        rx.receive(b'b'),
        RxReply {
            echo: UartTxMsg::Echo(b'b'),
            action: RxAction::Nothing
        }
    );
}

#[test]
fn typed_words_are_run() {
    assert_eq!(feed_fresh(b"?\r"), vec![runs(Command::Help)]);
    assert_eq!(feed_fresh(b"b0\r"), vec![runs(Command::BusOff)]);
    assert_eq!(feed_fresh(b"b1\n"), vec![runs(Command::BusOn)]);
    assert_eq!(feed_fresh(b"i4\r\n"), vec![runs(Command::InterruptClear)]);
    assert_eq!(feed_fresh(b"0b\r"), vec![runs(Command::Unknown)]);
}

#[test]
fn empty_line_is_an_unknown_command() {
    assert_eq!(feed_fresh(b"\r"), vec![runs(Command::Unknown)]);
    assert_eq!(feed_fresh(b"\n"), vec![runs(Command::Unknown)]);
}

#[test]
fn crlf_runs_once() {
    assert_eq!(feed_fresh(b"v\r\n"), vec![runs(Command::FirmwareInfo)]);
    assert_eq!(
        feed_fresh(b"v\r\nh\r\n"),
        vec![runs(Command::FirmwareInfo), runs(Command::PowerDown)]
    );
}

#[test]
fn lone_endings_each_run() {
    assert_eq!(
        feed_fresh(b"v\rh\r"),
        vec![runs(Command::FirmwareInfo), runs(Command::PowerDown)]
    );
    assert_eq!(
        feed_fresh(b"v\nh\n"),
        vec![runs(Command::FirmwareInfo), runs(Command::PowerDown)]
    );
    assert_eq!(
        feed_fresh(b"v\n\r"),
        vec![runs(Command::FirmwareInfo), runs(Command::Unknown)]
    );
    assert_eq!(
        feed_fresh(b"v\r\n\n"),
        vec![runs(Command::FirmwareInfo), runs(Command::Unknown)]
    );
}

#[test]
fn line_feed_after_text_is_not_ignored() {
    assert_eq!(
        feed_fresh(b"v\rh\n"),
        vec![runs(Command::FirmwareInfo), runs(Command::PowerDown)]
    );
}

#[test]
fn erasing_nothing_keeps_the_pair_together() {
    assert_eq!(feed_fresh(b"v\r\x08\n"), vec![runs(Command::FirmwareInfo)]);
    assert_eq!(feed_fresh(b"v\r\x7f\n"), vec![runs(Command::FirmwareInfo)]);
}

#[test]
fn foreign_byte_breaks_the_pair() {
    assert_eq!(
        feed_fresh(b"v\r\xff\n"),
        vec![runs(Command::FirmwareInfo), runs(Command::Unknown)]
    );
}

#[test]
fn either_key_erases() {
    assert_eq!(feed_fresh(b"bx\x081\r"), vec![RUBOUT, runs(Command::BusOn)]);
    assert_eq!(feed_fresh(b"bx\x7f1\r"), vec![RUBOUT, runs(Command::BusOn)]);
    assert_eq!(
        feed_fresh(b"xy\x08\x08h\r"),
        vec![RUBOUT, RUBOUT, runs(Command::PowerDown)]
    );
}

#[test]
fn nothing_is_erased_from_an_empty_line() {
    assert_eq!(feed_fresh(b"\x08\x7fh\r"), vec![runs(Command::PowerDown)]);
    assert_eq!(
        feed_fresh(b"x\x08\x08h\r"),
        vec![RUBOUT, runs(Command::PowerDown)]
    );
}

#[test]
fn bytes_outside_ascii_are_dropped() {
    assert_eq!(feed_fresh(b"b\x801\xff\r"), vec![runs(Command::BusOn)]);
}

#[test]
fn control_characters_are_kept() {
    assert_eq!(feed_fresh(b"b\x00\r"), vec![runs(Command::Unknown)]);
    assert_eq!(feed_fresh(b"b\t\r"), vec![runs(Command::Unknown)]);
}

#[test]
fn full_buffer_is_not_too_long() {
    let mut input = vec![b'x'; 64];
    input.push(b'\r');
    assert_eq!(feed_fresh(&input), vec![runs(Command::Unknown)]);
}

#[test]
fn one_byte_more_is_too_long() {
    let mut input = vec![b'x'; 65];
    input.push(b'\r');
    assert_eq!(feed_fresh(&input), vec![TOO_LONG]);
    let mut input = vec![b'x'; 1000];
    input.push(b'\n');
    assert_eq!(feed_fresh(&input), vec![TOO_LONG]);
}

#[test]
fn line_after_a_long_one_is_run() {
    let mut rx = UartRx::new();
    assert_eq!(feed(&mut rx, &[b'b'; 70]), vec![]);
    assert_eq!(feed(&mut rx, b"\r\n"), vec![TOO_LONG]);
    assert_eq!(feed(&mut rx, b"b1\r"), vec![runs(Command::BusOn)]);
}

#[test]
fn long_line_cannot_be_erased() {
    let mut rx = UartRx::new();
    assert_eq!(feed(&mut rx, &[b'b'; 65]), vec![]);
    assert_eq!(feed(&mut rx, &[8u8; 70]), vec![]);
    assert_eq!(feed(&mut rx, b"\r"), vec![TOO_LONG]);
}

#[test]
fn erasing_makes_room_in_a_full_buffer() {
    let mut rx = UartRx::new();
    assert_eq!(feed(&mut rx, &[b'x'; 64]), vec![]);
    assert_eq!(feed(&mut rx, &[8u8; 64]), vec![RUBOUT; 64]);
    assert_eq!(feed(&mut rx, b"h\r"), vec![runs(Command::PowerDown)]);
}

#[test]
fn bytes_outside_ascii_take_no_room() {
    let mut input = Vec::new();
    for _ in 0..64 {
        input.extend_from_slice(&[b'x', 0x80, 0xff]);
    }
    input.push(b'\r');
    assert_eq!(feed_fresh(&input), vec![runs(Command::Unknown)]);
    input.insert(0, b'x');
    assert_eq!(feed_fresh(&input), vec![TOO_LONG]);
}

#[test]
fn only_a_read_of_one_byte_counts() {
    let mut rx = UartRx::new();
    assert_eq!(rx.receive_read(None, b'x'), None);
    assert_eq!(rx.receive_read(Some(0), b'x'), None);
    assert_eq!(rx.receive_read(Some(2), b'x'), None);
    assert_eq!(
        rx.receive_read(Some(1), b'h'),
        Some(RxReply {
            echo: UartTxMsg::Echo(b'h'),
            action: RxAction::Nothing
        })
    );
    assert_eq!(
        rx.receive_read(Some(1), b'\r'),
        Some(RxReply {
            echo: UartTxMsg::Echo(b'\r'),
            action: runs(Command::PowerDown)
        })
    );
}
