//! The M-Bus regulator: its state, the shared cell that holds it, and the one
//! way to change it.

use vstd::prelude::*;

verus! {

/// What the M-Bus regulator is doing.
#[derive(Clone, Copy, Debug, PartialEq, Eq, Structural)]
pub enum MBusState {
    Disabled,
    Enabled,
    OverCurrentError,
}

/// The word that stands for `state`.
pub open spec fn code_of(state: MBusState) -> u32 {
    match state {
        MBusState::Disabled => 0,
        MBusState::Enabled => 1,
        MBusState::OverCurrentError => 2,
    }
}

/// The state that a word stands for. A word that stands for none reads as
/// `Disabled`, the safe state.
pub open spec fn state_of(code: u32) -> MBusState {
    if code == 1 {
        MBusState::Enabled
    } else if code == 2 {
        MBusState::OverCurrentError
    } else {
        MBusState::Disabled
    }
}

/// Holds the regulator's state as a single word. A task reads it through a shared
/// reference and replaces it through an exclusive one, so that no task ever sees
/// a half-made change.
pub struct AtomicMbusState {
    code: u32,
}

impl View for AtomicMbusState {
    type V = MBusState;

    open spec fn view(&self) -> MBusState {
        state_of(self.word())
    }
}

impl AtomicMbusState {
    /// The word in the cell.
    pub closed spec fn word(&self) -> u32 {
        self.code
    }

    /// The cell never holds a word that stands for no state.
    #[verifier::type_invariant]
    spec fn holds_a_state(self) -> bool {
        self.code == code_of(state_of(self.code))
    }

    pub fn new(state: MBusState) -> (cell: Self)
        ensures
            cell@ == state,
            cell.word() == code_of(state),
    {
        AtomicMbusState { code: Self::encode(state) }
    }

    pub fn load(&self) -> (state: MBusState)
        ensures
            state == self@,
            self.word() == code_of(state),
    {
        proof {
            use_type_invariant(self);
        }
        Self::decode(self.code)
    }

    pub fn store(&mut self, state: MBusState)
        ensures
            final(self)@ == state,
            final(self).word() == code_of(state),
    {
        self.code = Self::encode(state);
    }

    pub fn encode(state: MBusState) -> (code: u32)
        ensures
            code == code_of(state),
    {
        match state {
            MBusState::Disabled => 0,
            MBusState::Enabled => 1,
            MBusState::OverCurrentError => 2,
        }
    }

    pub fn decode(value: u32) -> (state: MBusState)
        ensures
            state == state_of(value),
    {
        match value {
            0 => MBusState::Disabled,
            1 => MBusState::Enabled,
            2 => MBusState::OverCurrentError,
            _ => MBusState::Disabled,
        }
    }
}

/// Which of the tasks that follow the regulator have to be woken.
#[derive(Clone, Copy, Debug, PartialEq, Eq, Structural)]
pub struct Signals {
    /// The task that drives the regulator's enable pin.
    pub enable: bool,
    /// The task that drives the status LEDs.
    pub led: bool,
    /// The task that drives the interrupt line.
    pub irq: bool,
}

impl Signals {
    /// Nobody is woken.
    pub open spec fn none() -> Signals {
        Signals { enable: false, led: false, irq: false }
    }

    /// All three followers are woken.
    pub open spec fn all() -> Signals {
        Signals { enable: true, led: true, irq: true }
    }
}

/// The signals that replacing `from` by `to` raises: all of them when the state
/// changes, none when it stays.
pub open spec fn change_signals(from: MBusState, to: MBusState) -> Signals {
    if from == to {
        Signals::none()
    } else {
        Signals::all()
    }
}

/// The regulator's state.
pub fn mbus_state(bus: &AtomicMbusState) -> (state: MBusState)
    ensures
        state == bus@,
        bus.word() == code_of(state),
{
    bus.load()
}

/// Puts the regulator into `state`, and says which tasks have to be woken for it.
pub fn mbus_state_set(bus: &mut AtomicMbusState, state: MBusState) -> (signals: Signals)
    ensures
        final(bus)@ == state,
        final(bus).word() == code_of(state),
        signals == change_signals(old(bus)@, state),
{
    if mbus_state(bus) == state {
        return Signals { enable: false, led: false, irq: false };
    }
    bus.store(state);
    Signals { enable: true, led: true, irq: true }
}

/// The over-current input fell: the regulator has tripped.
pub fn mbus_oc_handler(bus: &mut AtomicMbusState) -> (signals: Signals)
    ensures
        final(bus)@ == MBusState::OverCurrentError,
        final(bus).word() == code_of(MBusState::OverCurrentError),
        signals == change_signals(old(bus)@, MBusState::OverCurrentError),
{
    mbus_state_set(bus, MBusState::OverCurrentError)
}

/// Every state survives the trip through its word.
pub proof fn law_decode_encode(state: MBusState)
    ensures
        state_of(code_of(state)) == state,
{
}

/// A word survives the trip through its state exactly when some state is written
/// as that word.
pub proof fn law_encode_decode(code: u32)
    ensures
        code_of(state_of(code)) == code <==> (exists|state: MBusState| code_of(state) == code),
{
}

/// The words are 0 for a disabled, 1 for an enabled and 2 for a tripped regulator, and
/// a word that no state is written as reads as a disabled one.
pub proof fn law_stray_words_read_as_disabled(code: u32)
    ensures
        code == 0 ==> code_of(MBusState::Disabled) == code,
        code == 1 ==> code_of(MBusState::Enabled) == code,
        code == 2 ==> code_of(MBusState::OverCurrentError) == code,
        (forall|state: MBusState| code_of(state) != code) ==> state_of(code)
            == MBusState::Disabled,
        code > 2 ==> state_of(code) == MBusState::Disabled,
{
    assert(code_of(MBusState::Enabled) == 1);
    assert(code_of(MBusState::OverCurrentError) == 2);
}

/// No two states share a word.
pub proof fn law_codes_distinct(a: MBusState, b: MBusState)
    ensures
        code_of(a) == code_of(b) ==> a == b,
{
}

/// Every follower is woken exactly when the state changes.
pub proof fn law_change_wakes_every_follower(from: MBusState, to: MBusState)
    ensures
        change_signals(from, to).enable <==> from != to,
        change_signals(from, to).led <==> from != to,
        change_signals(from, to).irq <==> from != to,
{
}

/// Setting a state a second time wakes nobody.
pub proof fn law_set_is_idempotent(from: MBusState, to: MBusState)
    ensures
        change_signals(to, to) == Signals::none(),
        change_signals(from, to) == Signals::none() ==> from == to,
{
}

} // verus!
