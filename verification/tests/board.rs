use emonhp::config::config_handler;
use emonhp::mbus::{mbus_oc_handler, mbus_state_set, AtomicMbusState, MBusState, Signals};
use emonhp::outputs::{mbus_en_handler, IrqLine, LedEvent, Leds, Level};

/// The pins, and the wake-ups that their tasks have yet to serve.
struct Pins {
    pending: Signals,
    enable: Level,
    leds: Leds,
    irq: IrqLine,
}

impl Pins {
    fn new() -> Self {
        Pins {
            pending: Signals {
                enable: false,
                led: false,
                irq: false,
            },
            enable: Level::Low,
            leds: Leds::new(),
            irq: IrqLine::new(),
        }
    }

    fn raise(&mut self, signals: Signals) {
        self.pending.enable |= signals.enable;
        self.pending.led |= signals.led;
        self.pending.irq |= signals.irq;
    }

    fn serve(&mut self, bus: &AtomicMbusState) {
        if self.pending.enable {
            self.enable = mbus_en_handler(bus);
        }
        if self.pending.led {
            self.leds.mbus_led_handler(LedEvent::Changed, bus);
        }
        if self.pending.irq {
            self.irq.interrupt_handler(bus);
        }
        self.pending = Signals {
            enable: false,
            led: false,
            irq: false,
        };
    }
}

#[test]
fn settled_pins_follow_the_regulator() {
    let mut bus = AtomicMbusState::new(MBusState::Disabled);
    let mut pins = Pins::new();

    pins.raise(mbus_state_set(&mut bus, MBusState::Enabled));
    pins.serve(&bus);
    assert_eq!(pins.enable, Level::High);
    assert_eq!(pins.leds.red, Level::High);
    assert_eq!(pins.irq.level, Level::Low);

    pins.raise(mbus_oc_handler(&mut bus));
    pins.serve(&bus);
    assert_eq!(pins.enable, Level::Low);
    assert_eq!(pins.leds.green, Level::High);
    assert_eq!(pins.irq.level, Level::High);

    let mut task = config_handler("i4");
    pins.raise(task.step(&mut bus).signals);
    pins.serve(&bus);
    assert_eq!(pins.enable, Level::Low);
    assert_eq!(pins.leds, Leds::new());
    assert_eq!(pins.irq.level, Level::Low);
}

#[test]
fn late_tasks_catch_up() {
    let mut bus = AtomicMbusState::new(MBusState::Disabled);
    let mut pins = Pins::new();
    pins.raise(mbus_state_set(&mut bus, MBusState::Enabled));
    pins.raise(mbus_oc_handler(&mut bus));
    pins.raise(mbus_state_set(&mut bus, MBusState::Enabled));
    pins.serve(&bus);
    assert_eq!(pins.enable, Level::High);
    assert_eq!(pins.leds.green, Level::Low);
    assert_eq!(pins.leds.red, Level::High);
    assert_eq!(pins.irq.level, Level::Low);
}
