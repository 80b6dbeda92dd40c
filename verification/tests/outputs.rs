use emonhp::mbus::{AtomicMbusState, MBusState};
use emonhp::outputs::{
    flash_period, mbus_en_handler, IrqLine, LedEvent, Leds, Level, MBUS_FAULT_FLASH_MS,
};

fn bus(state: MBusState) -> AtomicMbusState {
    AtomicMbusState::new(state)
}

#[test]
fn supply_is_on_when_enabled_only() {
    assert_eq!(mbus_en_handler(&bus(MBusState::Disabled)), Level::Low);
    assert_eq!(mbus_en_handler(&bus(MBusState::Enabled)), Level::High);
    assert_eq!(mbus_en_handler(&bus(MBusState::OverCurrentError)), Level::Low);
}

#[test]
fn leds_show_the_state() {
    let mut leds = Leds::new();
    assert_eq!(
        leds,
        Leds {
            green: Level::Low,
            red: Level::Low
        }
    );
    leds.mbus_led_handler(LedEvent::Changed, &bus(MBusState::Enabled));
    assert_eq!(
        leds,
        Leds {
            green: Level::Low,
            red: Level::High
        }
    );
    leds.mbus_led_handler(LedEvent::Changed, &bus(MBusState::OverCurrentError));
    assert_eq!(
        leds,
        Leds {
            green: Level::High,
            red: Level::Low
        }
    );
    leds.mbus_led_handler(LedEvent::Changed, &bus(MBusState::Disabled));
    assert_eq!(
        leds,
        Leds {
            green: Level::Low,
            red: Level::Low
        }
    );
}

#[test]
fn fault_flashes_red() {
    let fault = bus(MBusState::OverCurrentError);
    let mut leds = Leds::new();
    leds.mbus_led_handler(LedEvent::Changed, &fault);
    let shown = leds;
    leds.mbus_led_handler(LedEvent::Flash, &fault);
    assert_eq!(
        leds,
        Leds {
            green: Level::High,
            red: Level::High
        }
    );
    leds.mbus_led_handler(LedEvent::Flash, &fault);
    assert_eq!(leds, shown);
}

#[test]
fn flash_period_is_set_in_a_fault_only() {
    assert_eq!(MBUS_FAULT_FLASH_MS, 250);
    assert_eq!(flash_period(&bus(MBusState::OverCurrentError)), Some(250));
    assert_eq!(flash_period(&bus(MBusState::Enabled)), None);
    assert_eq!(flash_period(&bus(MBusState::Disabled)), None);
}

#[test]
fn interrupt_line_follows_the_fault() {
    let mut line = IrqLine::new();
    assert_eq!(line.interrupt_handler(&bus(MBusState::Disabled)), None);
    assert_eq!(line.interrupt_handler(&bus(MBusState::Enabled)), None);
    assert_eq!(
        line.interrupt_handler(&bus(MBusState::OverCurrentError)),
        Some(Level::High)
    );
    assert_eq!(line.interrupt_handler(&bus(MBusState::OverCurrentError)), None);
    assert_eq!(
        line.interrupt_handler(&bus(MBusState::Enabled)),
        Some(Level::Low)
    );
    assert_eq!(line.interrupt_handler(&bus(MBusState::Disabled)), None);
}
