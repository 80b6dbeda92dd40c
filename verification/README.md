# emonHP firmware

The firmware of the emonHP heat pump monitor, with its decision logic verified by
Verus.

- `src/` is the library: the M-Bus regulator's state (`mbus`), the pins that follow
  it (`outputs`, and `board` for how they move together), the serial console
  (`uart_rx`, `config`, `uart_tx`), the display (`display`) and the watchdog
  (`watchdog`). It holds no
  hardware: a task asks the library what to do next, does it, and says how it went.
- `app/` is the firmware proper: the tasks, the pins and the peripherals.
- `tests/` runs the library on concrete values.

The version that the `v` command shows is that of the package: change it in
`Cargo.toml` and in `FIRMWARE_TEXT` together.

The console is a serial link at 115200 baud. Type `?` for the list of commands.

`embassy-executor` is used with its portable `arch-spin` feature; a build for the
board replaces it by `arch-cortex-m`. The display's logo is the raw image
`emonhp_64x64.raw` beside the firmware's `main.rs`, 64 by 64 pixels of one bit each.
