//! The pins that follow the M-Bus regulator: its enable line, its status LEDs and
//! the interrupt line to the host.

use vstd::prelude::*;
use crate::mbus::{mbus_state, AtomicMbusState, MBusState};

verus! {

/// How long the red LED stays on or off while it flashes.
pub const MBUS_FAULT_FLASH_MS: u64 = 250;

/// The level of a pin.
#[derive(Clone, Copy, Debug, PartialEq, Eq, Structural)]
pub enum Level {
    Low,
    High,
}

impl Level {
    /// The other level.
    pub open spec fn opposite(self) -> Level {
        match self {
            Level::Low => Level::High,
            Level::High => Level::Low,
        }
    }
}

/// The enable pin is high exactly while the regulator is enabled.
pub open spec fn enable_level(state: MBusState) -> Level {
    if state == MBusState::Enabled {
        Level::High
    } else {
        Level::Low
    }
}

/// The level for the regulator's enable pin.
pub fn mbus_en_handler(bus: &AtomicMbusState) -> (level: Level)
    ensures
        level == enable_level(bus@),
{
    match mbus_state(bus) {
        MBusState::Disabled | MBusState::OverCurrentError => Level::Low,
        MBusState::Enabled => Level::High,
    }
}

/// What the LED task waited for.
#[derive(Clone, Copy, Debug, PartialEq, Eq, Structural)]
pub enum LedEvent {
    /// The regulator's state changed.
    Changed,
    /// The flash period is over.
    Flash,
}

/// The levels of the status LEDs' pins. A low level lights the LED.
#[derive(Clone, Copy, Debug, PartialEq, Eq, Structural)]
pub struct Leds {
    pub green: Level,
    pub red: Level,
}

/// What the two LEDs show together.
#[derive(Clone, Copy, Debug, PartialEq, Eq, Structural)]
pub enum Colour {
    Dark,
    Green,
    Red,
    Yellow,
}

impl Leds {
    /// The levels with which the LEDs start to show `state`.
    pub open spec fn showing(state: MBusState) -> Leds {
        match state {
            MBusState::Disabled => Leds { green: Level::Low, red: Level::Low },
            MBusState::Enabled => Leds { green: Level::Low, red: Level::High },
            MBusState::OverCurrentError => Leds { green: Level::High, red: Level::Low },
        }
    }

    /// The levels after `event`, with the regulator in `state`.
    pub open spec fn after(self, event: LedEvent, state: MBusState) -> Leds {
        match event {
            LedEvent::Changed => Leds::showing(state),
            LedEvent::Flash => Leds { red: self.red.opposite(), ..self },
        }
    }

    /// What is to be seen.
    pub open spec fn colour(self) -> Colour {
        match (self.green, self.red) {
            (Level::Low, Level::Low) => Colour::Yellow,
            (Level::Low, Level::High) => Colour::Green,
            (Level::High, Level::Low) => Colour::Red,
            (Level::High, Level::High) => Colour::Dark,
        }
    }

    /// The levels after a reset, which show a disabled regulator.
    pub fn new() -> (leds: Self)
        ensures
            leds == Leds::showing(MBusState::Disabled),
    {
        Leds { green: Level::Low, red: Level::Low }
    }

    /// Sets the levels for `event`.
    pub fn mbus_led_handler(&mut self, event: LedEvent, bus: &AtomicMbusState)
        ensures
            *final(self) == old(self).after(event, bus@),
    {
        match event {
            LedEvent::Changed => match mbus_state(bus) {
                MBusState::Disabled => {
                    self.green = Level::Low;
                    self.red = Level::Low;
                },
                MBusState::Enabled => {
                    self.green = Level::Low;
                    self.red = Level::High;
                },
                MBusState::OverCurrentError => {
                    self.green = Level::High;
                    self.red = Level::Low;
                },
            },
            LedEvent::Flash => {
                self.red = match self.red {
                    Level::Low => Level::High,
                    Level::High => Level::Low,
                };
            },
        }
    }
}

/// How long to wait for the next flash, in milliseconds; `None` when nothing
/// flashes.
pub fn flash_period(bus: &AtomicMbusState) -> (period: Option<u64>)
    ensures
        period == (if bus@ == MBusState::OverCurrentError {
            Some(MBUS_FAULT_FLASH_MS)
        } else {
            None
        }),
{
    if mbus_state(bus) == MBusState::OverCurrentError {
        Some(MBUS_FAULT_FLASH_MS)
    } else {
        None
    }
}

/// The interrupt line is high exactly while there is an over-current.
pub open spec fn irq_level(state: MBusState) -> Level {
    if state == MBusState::OverCurrentError {
        Level::High
    } else {
        Level::Low
    }
}

/// The interrupt line, by the level that it was last set to.
#[derive(Clone, Copy, Debug, PartialEq, Eq, Structural)]
pub struct IrqLine {
    pub level: Level,
}

impl IrqLine {
    /// The line after a reset.
    pub fn new() -> (line: Self)
        ensures
            line.level == Level::Low,
    {
        IrqLine { level: Level::Low }
    }

    /// Looks at the regulator, and returns the level to which the line has to be
    /// set, or `None` when it is at that level already.
    pub fn interrupt_handler(&mut self, bus: &AtomicMbusState) -> (change: Option<Level>)
        ensures
            final(self).level == irq_level(bus@),
            change == (if old(self).level == irq_level(bus@) {
                None
            } else {
                Some(irq_level(bus@))
            }),
    {
        let fault = mbus_state(bus) == MBusState::OverCurrentError;
        match self.level {
            Level::Low => if fault {
                self.level = Level::High;
                Some(Level::High)
            } else {
                None
            },
            Level::High => if fault {
                None
            } else {
                self.level = Level::Low;
                Some(Level::Low)
            },
        }
    }
}

/// The LEDs show green for an enabled regulator, yellow for a disabled one, and
/// start out red for a fault.
pub proof fn law_led_colours(leds: Leds, state: MBusState)
    ensures
        leds.after(LedEvent::Changed, state).colour() == (match state {
            MBusState::Enabled => Colour::Green,
            MBusState::Disabled => Colour::Yellow,
            MBusState::OverCurrentError => Colour::Red,
        }),
{
}

/// In a fault the LEDs flash red: each flash period turns red to dark or dark to
/// red, and nothing else is ever shown.
pub proof fn law_fault_flashes_red(leds: Leds)
    requires
        leds.green == Level::High,
    ensures
        leds.colour() == Colour::Red || leds.colour() == Colour::Dark,
        leds.after(LedEvent::Flash, MBusState::OverCurrentError).green == Level::High,
        leds.after(LedEvent::Flash, MBusState::OverCurrentError).colour() == (if leds.colour()
            == Colour::Red {
            Colour::Dark
        } else {
            Colour::Red
        }),
{
}

/// After a change the LEDs depend on the regulator alone, not on what they showed: green
/// is lit unless there is a fault, and red unless the regulator is enabled.
pub proof fn law_change_forgets_the_past(before: Leds, other: Leds, state: MBusState)
    ensures
        before.after(LedEvent::Changed, state) == other.after(LedEvent::Changed, state),
        before.after(LedEvent::Changed, state).green == Level::Low <==> state
            != MBusState::OverCurrentError,
        before.after(LedEvent::Changed, state).red == Level::Low <==> state != MBusState::Enabled,
{
}

/// The end of a flash period flips the red LED and leaves the green one alone, whatever
/// they show and whatever the regulator does.
pub proof fn law_flash_flips_red_alone(leds: Leds, state: MBusState)
    ensures
        leds.after(LedEvent::Flash, state).red != leds.red,
        leds.after(LedEvent::Flash, state).green == leds.green,
{
}

/// The supply is on exactly while the regulator is enabled, the interrupt is raised
/// exactly in a fault, and never both at once.
pub proof fn law_supply_and_interrupt(state: MBusState)
    ensures
        enable_level(state) == Level::High <==> state == MBusState::Enabled,
        irq_level(state) == Level::High <==> state == MBusState::OverCurrentError,
        !(enable_level(state) == Level::High && irq_level(state) == Level::High),
{
}

/// Two flash periods bring the LEDs back to where they were.
pub proof fn law_flash_undoes_flash(leds: Leds, first: MBusState, second: MBusState)
    ensures
        leds.after(LedEvent::Flash, first).after(LedEvent::Flash, second) == leds,
{
}

} // verus!
