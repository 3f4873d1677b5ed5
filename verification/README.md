# Debug Assistant

A terminal tool for MCU debugging and firmware download on STM32 targets:
a serial monitor, USART ISP flashing through the ROM bootloader, and
JTAG/SWD flashing through a debug probe.

The decisions of the tool live in a library verified with Verus (`src/`);
the program around it (`app/`) draws the screens, reads the keyboard and
talks to serial ports, probes, the clipboard and the disk.

## Layout

- `src/text.rs`, `src/widgets.rs`, `src/width.rs`: UTF-8 text fields with a
  byte cursor, and clipping text to a display width.
- `src/numfmt.rs`: trimming, number parsing and formatting.
- `src/firmware.rs`, `src/image.rs`: firmware paths, BIN base addresses and
  the flash image of a BIN or Intel HEX file.
- `src/isp_protocol.rs`, `src/isp_session.rs`: STM32 USART bootloader frames
  and reply checks, and the sync / erase session that steps down the baud
  rate on failure.
- `src/serial_config.rs`, `src/lossy.rs`, `src/monitor.rs`,
  `src/monitor_keys.rs`: the serial monitor: settings, log, received line
  assembly, send line and history, and its keys.
- `src/flashing.rs`, `src/flash_state.rs`, `src/flash_keys.rs`,
  `src/flash_start.rs`: the flashing workbench: forms, keys, progress log
  and the checks before an operation starts.
- `src/keys.rs`, `src/home.rs`, `src/root.rs`: keys, the home menu and the
  screens, and starting and ending flashing operations.
- `app/`: the terminal program.
- `tests/`: tests of the library.

Each public function states its result in `ensures`; the `law_*` proof
functions state properties that relate several operations.
