//! Messages for the serial link, and the task that writes them out.

use vstd::prelude::*;
use vstd::utf8::encode_utf8;

verus! {

/// A message for the serial link.
#[derive(Clone, Copy, Debug, PartialEq, Eq)]
pub enum UartTxMsg {
    /// A single byte.
    Echo(u8),
    /// A fixed text.
    Static(&'static str),
}

impl UartTxMsg {
    /// The bytes that the message puts on the link.
    pub open spec fn payload(self) -> Seq<u8> {
        match self {
            UartTxMsg::Echo(byte) => seq![byte],
            UartTxMsg::Static(text) => encode_utf8(text@),
        }
    }
}

/// Where the link's task stands.
#[derive(Clone, Copy, Debug, PartialEq, Eq)]
pub enum TxTask {
    /// There is no message at hand.
    Idle,
    /// The message is to be written.
    Writing(UartTxMsg),
    /// The message is written and has to be flushed.
    Flushing,
}

/// What the link's task has to do next.
#[derive(Clone, Copy, Debug, PartialEq, Eq)]
pub enum TxAction {
    /// Wait for a message.
    Receive,
    /// Write a single byte. It can fail.
    WriteByte(u8),
    /// Write the whole of a text. It can fail.
    WriteText(&'static str),
    /// Flush what was written.
    Flush,
}

impl TxAction {
    /// The bytes that the action puts on the link.
    pub open spec fn bytes(self) -> Seq<u8> {
        match self {
            TxAction::WriteByte(byte) => seq![byte],
            TxAction::WriteText(text) => encode_utf8(text@),
            TxAction::Receive | TxAction::Flush => Seq::empty(),
        }
    }
}

impl TxTask {
    /// What the stage calls for.
    pub open spec fn calls_for(self) -> TxAction {
        match self {
            TxTask::Idle => TxAction::Receive,
            TxTask::Writing(UartTxMsg::Echo(byte)) => TxAction::WriteByte(byte),
            TxTask::Writing(UartTxMsg::Static(text)) => TxAction::WriteText(text),
            TxTask::Flushing => TxAction::Flush,
        }
    }

    /// The stage that follows once the message has been written or the link flushed,
    /// with success or without. A message that could not be written is given up.
    pub open spec fn next(self, ok: bool) -> TxTask {
        if self is Writing && ok {
            TxTask::Flushing
        } else {
            TxTask::Idle
        }
    }

    /// The task before its first message.
    pub fn new() -> (task: Self)
        ensures
            task == TxTask::Idle,
    {
        TxTask::Idle
    }

    /// Takes a message on.
    pub fn begin(&mut self, msg: UartTxMsg)
        requires
            *old(self) == TxTask::Idle,
        ensures
            *final(self) == TxTask::Writing(msg),
    {
        *self = TxTask::Writing(msg);
    }

    /// What there is to do now.
    pub fn action(&self) -> (action: TxAction)
        ensures
            action == self.calls_for(),
    {
        match *self {
            TxTask::Idle => TxAction::Receive,
            TxTask::Writing(msg) => match msg {
                UartTxMsg::Echo(byte) => TxAction::WriteByte(byte),
                UartTxMsg::Static(text) => TxAction::WriteText(text),
            },
            TxTask::Flushing => TxAction::Flush,
        }
    }

    /// Goes on once the message has been written or the link flushed; `ok` says
    /// whether it succeeded.
    pub fn advance(&mut self, ok: bool)
        requires
            *old(self) != TxTask::Idle,
        ensures
            *final(self) == old(self).next(ok),
    {
        *self = match *self {
            TxTask::Writing(_) => if ok {
                TxTask::Flushing
            } else {
                TxTask::Idle
            },
            _ => TxTask::Idle,
        };
    }
}

/// A message is written in one go, and the write puts exactly its payload on the
/// link.
pub proof fn law_one_write_makes_the_payload(msg: UartTxMsg)
    ensures
        TxTask::Writing(msg).calls_for().bytes() == msg.payload(),
        TxTask::Writing(msg).next(true).calls_for() == TxAction::Flush,
{
}

/// Different messages are written differently: the byte of an echo and the text of a
/// fixed message reach the link as they are.
pub proof fn law_messages_are_written_unchanged(byte: u8, text: &'static str)
    ensures
        TxTask::Writing(UartTxMsg::Echo(byte)).calls_for() == TxAction::WriteByte(byte),
        TxTask::Writing(UartTxMsg::Static(text)).calls_for() == TxAction::WriteText(text),
{
}

/// After the flush, whether or not it succeeded, the task waits for the next
/// message.
pub proof fn law_flush_ends_a_message(ok: bool)
    ensures
        TxTask::Flushing.next(ok).calls_for() == TxAction::Receive,
{
}

/// A message that the link refuses is dropped, and nothing is flushed for it.
pub proof fn law_refused_message_is_dropped(msg: UartTxMsg)
    ensures
        TxTask::Writing(msg).next(false).calls_for() == TxAction::Receive,
{
}

/// The bytes that `messages` put on the link, one after the other.
pub open spec fn payloads(messages: Seq<UartTxMsg>) -> Seq<u8>
    decreases messages.len(),
{
    if messages.len() == 0 {
        Seq::empty()
    } else {
        payloads(messages.drop_last()) + messages.last().payload()
    }
}

pub(crate) proof fn lemma_payloads_of_one(message: UartTxMsg)
    ensures
        payloads(seq![message]) == message.payload(),
{
    reveal_with_fuel(payloads, 2);
    assert(seq![message].drop_last() =~= Seq::<UartTxMsg>::empty());
    assert(payloads(seq![message]) =~= message.payload());
}

pub(crate) proof fn lemma_payloads_of_two(first: UartTxMsg, second: UartTxMsg)
    ensures
        payloads(seq![first, second]) == first.payload() + second.payload(),
{
    lemma_payloads_of_one(first);
    assert(seq![first, second].drop_last() =~= seq![first]);
}

} // verus!
