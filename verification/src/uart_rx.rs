//! The receiving side of the serial console: bytes come in one at a time and
//! make up command lines.

use vstd::prelude::*;
use vstd::utf8::{encode_utf8, is_ascii_chars, is_ascii_chars_encode_utf8};
use crate::config::{command_of, config_handler, ConfigTask};
use crate::uart_tx::UartTxMsg;

verus! {

/// The longest command line, in bytes.
pub const LINE_CAPACITY: usize = 64;

/// Backspace.
pub const BS: u8 = 8;

/// Line feed.
pub const LF: u8 = 10;

/// Carriage return.
pub const CR: u8 = 13;

/// Delete.
pub const DEL: u8 = 127;

/// Holds a `heapless::String` with room for 64 bytes. The string's storage type has
/// no public name, so the string is opaque here, and what it holds is given by
/// `text_of`.
#[verifier::external_body]
pub struct LineBuffer {
    string: heapless::String<64>,
}

/// The error of a `heapless` collection that has no room left.
#[verifier::external_type_specification]
#[verifier::external_body]
pub struct ExCapacityError(heapless::CapacityError);

/// The characters that the string in a line buffer holds, first to last.
pub uninterp spec fn text_of(line: LineBuffer) -> Seq<char>;

/// Calls `heapless::String::new`: the new string is empty.
#[verifier::external_body]
fn line_new() -> (line: LineBuffer)
    ensures
        text_of(line) == Seq::<char>::empty(),
{
    LineBuffer { string: heapless::String::new() }
}

/// Calls `heapless::String::push`: it appends the character when its UTF-8 bytes
/// fit into the capacity behind those that the string holds, and otherwise
/// reports an error and leaves the string alone.
#[verifier::external_body]
fn line_push(line: &mut LineBuffer, c: char) -> (pushed: Result<
    (),
    heapless::CapacityError,
>)
    ensures
        pushed is Ok <==> encode_utf8(text_of(*old(line))).len() + encode_utf8(seq![c]).len() <= 64,
        pushed is Ok ==> text_of(*final(line)) == text_of(*old(line)).push(c),
        pushed is Err ==> text_of(*final(line)) == text_of(*old(line)),
{
    line.string.push(c)
}

/// Calls `heapless::String::pop`: it takes the last character off and returns it;
/// an empty string has none and stays empty.
#[verifier::external_body]
fn line_pop(line: &mut LineBuffer) -> (popped: Option<char>)
    ensures
        text_of(*old(line)).len() == 0 ==> popped is None && text_of(*final(line)) == text_of(
            *old(line),
        ),
        text_of(*old(line)).len() > 0 ==> popped == Some(text_of(*old(line)).last()) && text_of(
            *final(line),
        ) == text_of(*old(line)).drop_last(),
{
    line.string.pop()
}

/// Calls `heapless::String::clear`: the string is empty afterwards.
#[verifier::external_body]
fn line_clear(line: &mut LineBuffer)
    ensures
        text_of(*final(line)) == Seq::<char>::empty(),
{
    line.string.clear()
}

/// Calls `heapless::String::as_str`: the slice holds the string's characters.
#[verifier::external_body]
fn line_as_str(line: &LineBuffer) -> (text: &str)
    ensures
        text@ == text_of(*line),
{
    line.string.as_str()
}

/// Calls `str::ends_with` with a character for the pattern: true exactly when the
/// text's last character is that one.
#[verifier::external_body]
fn text_ends_with(text: &str, c: char) -> (found: bool)
    ensures
        found == (text@.len() > 0 && text@.last() == c),
{
    text.ends_with(c)
}

/// Whether a byte ends a line.
pub open spec fn is_line_end(ch: u8) -> bool {
    ch == CR || ch == LF
}

/// Whether a byte takes the last character of the line back.
pub open spec fn is_erase(ch: u8) -> bool {
    ch == BS || ch == DEL
}

/// Whether a byte is a character of the line that it comes in on.
pub open spec fn is_text(ch: u8) -> bool {
    ch < 128 && !is_line_end(ch) && !is_erase(ch)
}

/// What the receiver remembers between two bytes.
pub struct RxState {
    /// The line so far.
    pub line: Seq<char>,
    /// The line has outgrown the buffer, and the rest of it is dropped.
    pub overflowed: bool,
    /// The last line ended in a carriage return, so a line feed that follows
    /// belongs to it.
    pub ignore_lf: bool,
}

impl RxState {
    /// Nothing has been received, or the line is over.
    pub open spec fn fresh(ignore_lf: bool) -> RxState {
        RxState { line: Seq::empty(), overflowed: false, ignore_lf }
    }

    /// What holds between any two bytes: the line fits the buffer and holds text
    /// only, and it overflows only when the buffer is full.
    pub open spec fn wf(self) -> bool {
        &&& self.line.len() <= LINE_CAPACITY
        &&& is_ascii_chars(self.line)
        &&& forall|i: int|
            #![trigger self.line[i]]
            0 <= i < self.line.len() ==> is_text(self.line[i] as u8)
        &&& self.overflowed ==> self.line.len() == LINE_CAPACITY
    }

    /// What is remembered once `ch` has come in.
    pub open spec fn after(self, ch: u8) -> RxState {
        if is_line_end(ch) {
            if ch == LF && self.ignore_lf {
                RxState { ignore_lf: false, ..self }
            } else {
                RxState::fresh(ch == CR)
            }
        } else if self.overflowed || ch >= 128 {
            RxState { ignore_lf: false, ..self }
        } else if is_erase(ch) {
            if self.line.len() > 0 {
                RxState { line: self.line.drop_last(), ..self }
            } else {
                self
            }
        } else if self.line.len() < LINE_CAPACITY {
            RxState { line: self.line.push(ch as char), ignore_lf: false, ..self }
        } else {
            RxState { overflowed: true, ignore_lf: false, ..self }
        }
    }

    /// What `ch` calls for, besides its echo.
    pub open spec fn action(self, ch: u8) -> RxAction {
        if is_line_end(ch) && !(ch == LF && self.ignore_lf) {
            if self.overflowed {
                RxAction::Send(UartTxMsg::Static("> Command too long\r\n"))
            } else {
                RxAction::Run(ConfigTask::Start(command_of(self.line)))
            }
        } else if is_erase(ch) && !self.overflowed && self.line.len() > 0 {
            RxAction::Send(UartTxMsg::Static("\x08 \x08"))
        } else {
            RxAction::Nothing
        }
    }
}

/// What to do about a byte once it has been echoed.
#[derive(Clone, Copy, Debug, PartialEq, Eq)]
pub enum RxAction {
    Nothing,
    /// Send a message.
    Send(UartTxMsg),
    /// Answer a command.
    Run(ConfigTask),
}

/// What a byte calls for: first the echo, then the action.
#[derive(Clone, Copy, Debug, PartialEq, Eq)]
pub struct RxReply {
    pub echo: UartTxMsg,
    pub action: RxAction,
}

/// The receiver of the serial console.
pub struct UartRx {
    ln: LineBuffer,
    overflowed: bool,
    ignore_lf: bool,
}

impl View for UartRx {
    type V = RxState;

    closed spec fn view(&self) -> RxState {
        RxState {
            line: text_of(self.ln),
            overflowed: self.overflowed,
            ignore_lf: self.ignore_lf,
        }
    }
}

impl UartRx {
    pub fn new() -> (rx: Self)
        ensures
            rx@ == RxState::fresh(false),
            rx@.wf(),
    {
        UartRx { ln: line_new(), overflowed: false, ignore_lf: false }
    }

    /// Takes in the byte `ch`.
    pub fn receive(&mut self, ch: u8) -> (reply: RxReply)
        requires
            old(self)@.wf(),
        ensures
            final(self)@.wf(),
            final(self)@ == old(self)@.after(ch),
            reply.echo == UartTxMsg::Echo(ch),
            reply.action == old(self)@.action(ch),
    {
        let echo = UartTxMsg::Echo(ch);
        let mut action = RxAction::Nothing;
        proof {
            lemma_capacity(self@, ch as char);
        }
        if ch == CR || ch == LF {
            // Accept either common line ending, but do not run CRLF twice.
            if ch == LF && self.ignore_lf {
                self.ignore_lf = false;
                return RxReply { echo, action };
            }
            if self.overflowed {
                action = RxAction::Send(UartTxMsg::Static("> Command too long\r\n"));
            } else {
                if text_ends_with(line_as_str(&self.ln), '\r') {
                    line_pop(&mut self.ln);
                }
                action = RxAction::Run(config_handler(line_as_str(&self.ln)));
            }
            line_clear(&mut self.ln);
            self.overflowed = false;
            self.ignore_lf = ch == CR;
        } else if (ch == BS || ch == DEL) && !self.overflowed {
            if line_pop(&mut self.ln).is_some() {
                action = RxAction::Send(UartTxMsg::Static("\x08 \x08"));
            }
        } else if ch < 128 && !self.overflowed && line_push(&mut self.ln, ch as char).is_err() {
            self.overflowed = true;
            self.ignore_lf = false;
        } else {
            self.ignore_lf = false;
        }
        RxReply { echo, action }
    }

    /// Takes in the result of reading one byte from the link: `count` says how many
    /// bytes were read, `None` that the read failed. Anything but a single byte is
    /// passed over.
    pub fn receive_read(&mut self, count: Option<usize>, ch: u8) -> (reply: Option<RxReply>)
        requires
            old(self)@.wf(),
        ensures
            final(self)@.wf(),
            count == Some(1usize) ==> final(self)@ == old(self)@.after(ch) && reply == Some(
                RxReply { echo: UartTxMsg::Echo(ch), action: old(self)@.action(ch) },
            ),
            count != Some(1usize) ==> *final(self) == *old(self) && reply is None,
    {
        match count {
            Some(1) => Some(self.receive(ch)),
            _ => None,
        }
    }
}

/// A line of text takes one byte of the buffer per character.
proof fn lemma_capacity(state: RxState, c: char)
    requires
        state.wf(),
    ensures
        encode_utf8(state.line).len() == state.line.len(),
        c <= '\u{7f}' ==> encode_utf8(seq![c]).len() == 1,
{
    is_ascii_chars_encode_utf8(state.line);
    if c <= '\u{7f}' {
        assert(is_ascii_chars(seq![c]));
        is_ascii_chars_encode_utf8(seq![c]);
    }
}

/// What is remembered once all of `bytes` have come in, in order.
pub open spec fn after_all(state: RxState, bytes: Seq<u8>) -> RxState
    decreases bytes.len(),
{
    if bytes.len() == 0 {
        state
    } else {
        after_all(state, bytes.drop_last()).after(bytes.last())
    }
}

/// The characters that `bytes` stand for.
pub open spec fn chars_of(bytes: Seq<u8>) -> Seq<char> {
    bytes.map_values(|b: u8| b as char)
}

/// Whatever comes in, the line fits the buffer and holds text only.
pub proof fn law_always_well_formed(state: RxState, bytes: Seq<u8>)
    requires
        state.wf(),
    ensures
        after_all(state, bytes).wf(),
    decreases bytes.len(),
{
    if bytes.len() > 0 {
        law_always_well_formed(state, bytes.drop_last());
        lemma_after_well_formed(after_all(state, bytes.drop_last()), bytes.last());
    }
}

proof fn lemma_after_well_formed(state: RxState, ch: u8)
    requires
        state.wf(),
    ensures
        state.after(ch).wf(),
{
    let next = state.after(ch);
    assert forall|i: int| 0 <= i < next.line.len() implies is_text(
        #[trigger] next.line[i] as u8,
    ) by {
        if i < state.line.len() {
            assert(next.line[i] == state.line[i]);
        }
    }
}

/// The bytes of a line that are ASCII, in order.
pub open spec fn ascii_of(bytes: Seq<u8>) -> Seq<u8> {
    bytes.filter(|b: u8| b < 128)
}

/// Whether `bytes` neither end the line that they come in on nor erase any of it.
pub open spec fn is_plain(bytes: Seq<u8>) -> bool {
    forall|i: int|
        0 <= i < bytes.len() ==> !is_line_end(#[trigger] bytes[i]) && !is_erase(bytes[i])
}

/// The ASCII bytes of a line, as far as they fit the buffer, end up on it as they
/// were typed, and the line overflows when there are more.
proof fn lemma_text_is_collected(ignore_lf: bool, text: Seq<u8>)
    requires
        is_plain(text),
    ensures
        ({
            let typed = after_all(RxState::fresh(ignore_lf), text);
            &&& typed.ignore_lf == (ignore_lf && text.len() == 0)
            &&& typed.overflowed == (ascii_of(text).len() > LINE_CAPACITY)
            &&& !typed.overflowed ==> typed.line == chars_of(ascii_of(text))
        }),
    decreases text.len(),
{
    reveal(Seq::filter);
    if text.len() == 0 {
        assert(chars_of(ascii_of(text)) =~= Seq::<char>::empty());
    } else {
        let most = text.drop_last();
        let last = text.last();
        assert forall|i: int| 0 <= i < most.len() implies !is_line_end(#[trigger] most[i])
            && !is_erase(most[i]) by {
            assert(most[i] == text[i]);
        }
        lemma_text_is_collected(ignore_lf, most);
        assert(!is_line_end(text[text.len() - 1]) && !is_erase(text[text.len() - 1]));
        if last < 128 {
            assert(ascii_of(text) == ascii_of(most).push(last));
            assert(chars_of(ascii_of(most)).push(last as char) =~= chars_of(ascii_of(text)));
        } else {
            assert(ascii_of(text) == ascii_of(most));
        }
    }
}

/// What is typed is what is run: a line whose ASCII bytes fit the buffer, ended by
/// either line ending, is answered as the command that they spell; bytes outside
/// ASCII are as if they had not been typed. The one line left out is the empty one
/// that is no line at all, the line feed right behind a carriage return.
pub proof fn law_typed_line_is_run(ignore_lf: bool, text: Seq<u8>, ending: u8)
    requires
        is_plain(text),
        ascii_of(text).len() <= LINE_CAPACITY,
        is_line_end(ending),
        !(ignore_lf && text.len() == 0 && ending == LF),
    ensures
        ({
            let typed = after_all(RxState::fresh(ignore_lf), text);
            &&& typed.action(ending) == RxAction::Run(
                ConfigTask::Start(command_of(chars_of(ascii_of(text)))),
            )
            &&& typed.after(ending) == RxState::fresh(ending == CR)
        }),
{
    lemma_text_is_collected(ignore_lf, text);
}

/// A line whose ASCII bytes outgrow the buffer is refused as a whole, and the next
/// line starts afresh.
pub proof fn law_long_line_is_refused(ignore_lf: bool, text: Seq<u8>, ending: u8)
    requires
        is_plain(text),
        ascii_of(text).len() > LINE_CAPACITY,
        is_line_end(ending),
    ensures
        ({
            let typed = after_all(RxState::fresh(ignore_lf), text);
            &&& typed.action(ending) == RxAction::Send(
                UartTxMsg::Static("> Command too long\r\n"),
            )
            &&& typed.after(ending) == RxState::fresh(ending == CR)
        }),
{
    lemma_text_is_collected(ignore_lf, text);
    reveal(Seq::filter);
}

/// The line ends at bytes 10 and 13, bytes 8 and 127 erase, and every other byte of
/// ASCII is text.
pub proof fn law_meaning_of_bytes(ch: u8)
    ensures
        is_line_end(ch) <==> ch == 10 || ch == 13,
        is_erase(ch) <==> ch == 8 || ch == 127,
        is_text(ch) <==> ch < 128 && ch != 8 && ch != 10 && ch != 13 && ch != 127,
{
}

/// A byte that neither ends the line nor erases calls for nothing but its echo, on
/// every line.
pub proof fn law_typing_is_only_echoed(state: RxState, ch: u8)
    requires
        ch != 8 && ch != 10 && ch != 13 && ch != 127,
    ensures
        state.action(ch) == RxAction::Nothing,
{
}

/// A message is sent for two reasons only: to blank a character that was erased, or to
/// refuse a line that has outgrown the buffer when it ends.
pub proof fn law_messages_have_a_reason(state: RxState, ch: u8, msg: UartTxMsg)
    requires
        state.action(ch) == RxAction::Send(msg),
    ensures
        ch == 8 || ch == 127 ==> msg == UartTxMsg::Static("\x08 \x08") && state.line.len() > 0
            && !state.overflowed,
        ch == 10 || ch == 13 ==> msg == UartTxMsg::Static("> Command too long\r\n")
            && state.overflowed,
        ch == 8 || ch == 127 || ch == 10 || ch == 13,
{
}

/// A character of text goes to the end of a line that has room for it, and leaves the
/// rest of the line alone. On a full line it is dropped, and the line has overflowed.
/// Either way a line feed that follows is a line ending of its own.
pub proof fn law_typing_extends_the_line(state: RxState, ch: u8)
    requires
        !state.overflowed,
        ch < 128 && ch != 8 && ch != 10 && ch != 13 && ch != 127,
    ensures
        !state.after(ch).ignore_lf,
        state.line.len() < 64 ==> {
            &&& !state.after(ch).overflowed
            &&& state.after(ch).line.len() == state.line.len() + 1
            &&& state.after(ch).line.last() == ch as char
            &&& state.after(ch).line.drop_last() == state.line
        },
        state.line.len() >= 64 ==> state.after(ch).overflowed && state.after(ch).line
            == state.line,
{
    if state.line.len() < 64 {
        assert(state.after(ch).line.drop_last() =~= state.line);
    }
}

/// Either erasing key takes the last character off any line that has one and has not
/// overflowed, blanks it on the terminal, and touches nothing else.
pub proof fn law_erase_takes_the_last_character(state: RxState, erase: u8)
    requires
        !state.overflowed,
        state.line.len() > 0,
        erase == 8 || erase == 127,
    ensures
        state.after(erase).line.push(state.line.last()) == state.line,
        !state.after(erase).overflowed,
        state.after(erase).ignore_lf == state.ignore_lf,
        state.action(erase) == RxAction::Send(UartTxMsg::Static("\x08 \x08")),
{
    assert(state.after(erase).line.push(state.line.last()) =~= state.line);
}

/// The end of a line empties it and is always answered: by running the command that the
/// line spells, or by refusing it when it has overflowed. Whatever the line was, the
/// next one starts empty, and only a carriage return claims a line feed that follows.
pub proof fn law_line_end_is_answered(state: RxState, ending: u8)
    requires
        ending == 13 || ending == 10 && !state.ignore_lf,
    ensures
        state.after(ending).line.len() == 0,
        !state.after(ending).overflowed,
        state.after(ending).ignore_lf <==> ending == 13,
        state.overflowed ==> state.action(ending) == RxAction::Send(
            UartTxMsg::Static("> Command too long\r\n"),
        ),
        !state.overflowed ==> state.action(ending) == RxAction::Run(
            ConfigTask::Start(command_of(state.line)),
        ),
{
}

/// A line feed that belongs to the carriage return before it does nothing but to use
/// that claim up.
pub proof fn law_claimed_line_feed_is_swallowed(state: RxState)
    requires
        state.ignore_lf,
    ensures
        state.action(10) == RxAction::Nothing,
        state.after(10).line == state.line,
        state.after(10).overflowed == state.overflowed,
        !state.after(10).ignore_lf,
{
}

/// What is left of `bytes` on a line: each erasing byte takes the last character back,
/// and bytes outside ASCII leave no trace.
pub open spec fn edited(bytes: Seq<u8>) -> Seq<char>
    decreases bytes.len(),
{
    if bytes.len() == 0 {
        Seq::empty()
    } else {
        let before = edited(bytes.drop_last());
        let ch = bytes.last();
        if ch == 8 || ch == 127 {
            if before.len() == 0 {
                before
            } else {
                before.subrange(0, before.len() - 1)
            }
        } else if ch < 128 {
            before + seq![ch as char]
        } else {
            before
        }
    }
}

proof fn lemma_line_is_edited(ignore_lf: bool, bytes: Seq<u8>)
    requires
        forall|i: int| 0 <= i < bytes.len() ==> #[trigger] bytes[i] != 10 && bytes[i] != 13,
        forall|n: int|
            0 <= n <= bytes.len() ==> edited(#[trigger] bytes.subrange(0, n)).len() <= 64,
    ensures
        after_all(RxState::fresh(ignore_lf), bytes).line == edited(bytes),
        !after_all(RxState::fresh(ignore_lf), bytes).overflowed,
    decreases bytes.len(),
{
    if bytes.len() > 0 {
        let most = bytes.drop_last();
        assert forall|i: int| 0 <= i < most.len() implies #[trigger] most[i] != 10 && most[i]
            != 13 by {
            assert(most[i] == bytes[i]);
        }
        assert forall|n: int| 0 <= n <= most.len() implies edited(
            #[trigger] most.subrange(0, n),
        ).len() <= 64 by {
            assert(most.subrange(0, n) =~= bytes.subrange(0, n));
        }
        lemma_line_is_edited(ignore_lf, most);
        assert(bytes.subrange(0, bytes.len() as int) =~= bytes);
        assert(bytes[bytes.len() - 1] != 10 && bytes[bytes.len() - 1] != 13);
        let before = after_all(RxState::fresh(ignore_lf), most);
        let ch = bytes.last();
        assert(before.line.push(ch as char) =~= before.line + seq![ch as char]);
        if before.line.len() > 0 {
            assert(before.line.drop_last() =~= before.line.subrange(0, before.line.len() - 1));
        }
    }
}

/// What is run is what is left on the line: text typed and erased in any order, as long
/// as the line never outgrows the buffer on the way, is answered as the command that is
/// left when a carriage return ends it.
pub proof fn law_edited_line_is_run(ignore_lf: bool, bytes: Seq<u8>)
    requires
        forall|i: int| 0 <= i < bytes.len() ==> #[trigger] bytes[i] != 10 && bytes[i] != 13,
        forall|n: int|
            0 <= n <= bytes.len() ==> edited(#[trigger] bytes.subrange(0, n)).len() <= 64,
    ensures
        after_all(RxState::fresh(ignore_lf), bytes).action(13) == RxAction::Run(
            ConfigTask::Start(command_of(edited(bytes))),
        ),
{
    lemma_line_is_edited(ignore_lf, bytes);
}

/// A carriage return and the line feed right behind it end one line, not two: the
/// line feed calls for nothing but its echo.
pub proof fn law_crlf_runs_once(state: RxState)
    ensures
        state.after(CR).action(LF) == RxAction::Nothing,
        state.after(CR).after(LF) == RxState::fresh(false),
{
}

/// Both line endings mean the same, unless the line feed belongs to the carriage
/// return before it.
pub proof fn law_line_endings_agree(state: RxState)
    requires
        !state.ignore_lf,
    ensures
        state.action(CR) == state.action(LF),
        state.after(CR).line == state.after(LF).line,
        state.after(CR).overflowed == state.after(LF).overflowed,
{
}

/// Either erasing key takes the character just typed back, and blanks it on the
/// terminal.
pub proof fn law_erase_undoes_typing(state: RxState, ch: u8, erase: u8)
    requires
        !state.overflowed,
        state.line.len() < LINE_CAPACITY,
        is_text(ch),
        is_erase(erase),
    ensures
        state.after(ch).after(erase) == (RxState { ignore_lf: false, ..state }),
        state.after(ch).action(erase) == RxAction::Send(UartTxMsg::Static("\x08 \x08")),
{
    assert(state.line.push(ch as char).drop_last() =~= state.line);
}

/// There is nothing to erase on an empty line: the key calls for nothing but its
/// echo, and is forgotten.
pub proof fn law_erase_stops_at_line_start(state: RxState, erase: u8)
    requires
        !state.overflowed,
        state.line.len() == 0,
        is_erase(erase),
    ensures
        state.after(erase) == state,
        state.action(erase) == RxAction::Nothing,
{
}

/// On a line that has outgrown the buffer, every byte up to the line's end is
/// dropped, the erasing keys too.
pub proof fn law_overflow_lasts_to_line_end(state: RxState, ch: u8)
    requires
        state.overflowed,
        !is_line_end(ch),
    ensures
        state.after(ch) == (RxState { ignore_lf: false, ..state }),
        state.action(ch) == RxAction::Nothing,
{
}

/// A byte outside ASCII never gets onto the line.
pub proof fn law_only_ascii_is_kept(state: RxState, ch: u8)
    requires
        ch >= 128,
    ensures
        state.after(ch) == (RxState { ignore_lf: false, ..state }),
        state.action(ch) == RxAction::Nothing,
{
}

/// Only the end of a line runs a command.
pub proof fn law_only_line_end_runs(state: RxState, ch: u8)
    ensures
        state.action(ch) is Run ==> is_line_end(ch) && !state.overflowed,
{
}

} // verus!
