//! How the regulator and the pins that follow it move together. Each pin has a
//! task of its own, which runs some time after it was woken; this module states
//! what holds of the pins whatever the order in which the tasks come to run.

use vstd::prelude::*;
use crate::mbus::{change_signals, MBusState, Signals};
use crate::outputs::{enable_level, irq_level, Colour, LedEvent, Leds, Level};

verus! {

/// The regulator, the wake-ups that are still to be served, and the pins.
pub struct Board {
    pub state: MBusState,
    pub pending: Signals,
    pub enable: Level,
    pub leds: Leds,
    pub irq: Level,
}

/// Something that happens on the board.
pub enum BoardEvent {
    /// The regulator's state is set, by a command, by the over-current input or at
    /// start-up.
    Change(MBusState),
    /// The task of the enable pin runs.
    ServeEnable,
    /// The task of the LEDs runs because it was woken.
    ServeLed,
    /// The task of the LEDs runs because the flash period is over.
    Flash,
    /// The task of the interrupt line runs.
    ServeIrq,
}

impl Board {
    /// The board after a reset.
    pub open spec fn reset() -> Board {
        Board {
            state: MBusState::Disabled,
            pending: Signals::none(),
            enable: Level::Low,
            leds: Leds::showing(MBusState::Disabled),
            irq: Level::Low,
        }
    }

    /// Whether `event` can happen now: a task runs when it was woken. The LEDs' task
    /// prefers a wake-up to the end of a flash period, and there is such a period in
    /// a fault only.
    pub open spec fn admits(self, event: BoardEvent) -> bool {
        match event {
            BoardEvent::Change(_) => true,
            BoardEvent::ServeEnable => self.pending.enable,
            BoardEvent::ServeLed => self.pending.led,
            BoardEvent::Flash => !self.pending.led && self.state == MBusState::OverCurrentError,
            BoardEvent::ServeIrq => self.pending.irq,
        }
    }

    /// The board after `event`.
    pub open spec fn after(self, event: BoardEvent) -> Board {
        match event {
            BoardEvent::Change(to) => {
                let raised = change_signals(self.state, to);
                Board {
                    state: to,
                    pending: Signals {
                        enable: self.pending.enable || raised.enable,
                        led: self.pending.led || raised.led,
                        irq: self.pending.irq || raised.irq,
                    },
                    ..self
                }
            },
            BoardEvent::ServeEnable => Board {
                enable: enable_level(self.state),
                pending: Signals { enable: false, ..self.pending },
                ..self
            },
            BoardEvent::ServeLed => Board {
                leds: self.leds.after(LedEvent::Changed, self.state),
                pending: Signals { led: false, ..self.pending },
                ..self
            },
            BoardEvent::Flash => Board {
                leds: self.leds.after(LedEvent::Flash, self.state),
                ..self
            },
            BoardEvent::ServeIrq => Board {
                irq: irq_level(self.state),
                pending: Signals { irq: false, ..self.pending },
                ..self
            },
        }
    }

    /// Whether `events` can happen one after the other.
    pub open spec fn admits_all(self, events: Seq<BoardEvent>) -> bool
        decreases events.len(),
    {
        events.len() == 0 || self.admits_all(events.drop_last()) && self.after_all(
            events.drop_last(),
        ).admits(events.last())
    }

    /// The board after all of `events`.
    pub open spec fn after_all(self, events: Seq<BoardEvent>) -> Board
        decreases events.len(),
    {
        if events.len() == 0 {
            self
        } else {
            self.after_all(events.drop_last()).after(events.last())
        }
    }

    /// The LEDs show the state that the regulator is in; in a fault they may be
    /// anywhere in their flashing.
    pub open spec fn leds_show_state(self) -> bool {
        match self.state {
            MBusState::Enabled => self.leds.colour() == Colour::Green,
            MBusState::Disabled => self.leds.colour() == Colour::Yellow,
            MBusState::OverCurrentError => self.leds.colour() == Colour::Red || self.leds.colour()
                == Colour::Dark,
        }
    }

    /// A pin agrees with the regulator unless its task has yet to be served.
    pub open spec fn consistent(self) -> bool {
        &&& !self.pending.enable ==> self.enable == enable_level(self.state)
        &&& !self.pending.led ==> self.leds_show_state()
        &&& !self.pending.irq ==> self.irq == irq_level(self.state)
    }
}

proof fn lemma_after_consistent(board: Board, event: BoardEvent)
    requires
        board.consistent(),
        board.admits(event),
    ensures
        board.after(event).consistent(),
{
}

/// No wake-up is ever lost: whatever happens after a reset, a pin that disagrees
/// with the regulator has a task that is still to run.
pub proof fn law_no_signal_is_lost(events: Seq<BoardEvent>)
    requires
        Board::reset().admits_all(events),
    ensures
        Board::reset().after_all(events).consistent(),
    decreases events.len(),
{
    if events.len() > 0 {
        law_no_signal_is_lost(events.drop_last());
        lemma_after_consistent(Board::reset().after_all(events.drop_last()), events.last());
    }
}

/// Once all woken tasks have run, every pin is where the regulator's state wants
/// it: the supply is on exactly when it is enabled, the interrupt line is high
/// exactly in a fault, and the LEDs show the state.
pub proof fn law_settled_pins_follow_state(events: Seq<BoardEvent>)
    requires
        Board::reset().admits_all(events),
        Board::reset().after_all(events).pending == Signals::none(),
    ensures
        ({
            let board = Board::reset().after_all(events);
            &&& board.enable == Level::High <==> board.state == MBusState::Enabled
            &&& board.irq == Level::High <==> board.state == MBusState::OverCurrentError
            &&& board.leds_show_state()
        }),
{
    law_no_signal_is_lost(events);
}

} // verus!
