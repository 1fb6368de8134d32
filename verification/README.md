# ferris_revolver

Firmware of a hand-held game on an RP2040 board: a rotary encoder and two buttons, an SH1106
display, and a USB serial port on which the state of the lines is reported.

- `src/` is the logic of the firmware, verified with Verus. The interrupt handler and the main loop
  are machines: they hand out one request after the other and take in what came of it. Contracts
  give every step; the public proof functions say what whole runs, passes and sequences of them do.
- `app/` carries the requests out on the board. It links against the game and its artwork, which
  supply `new_game` and `artwork`.
- `tests/` runs the library on concrete values.

Trusted without proof are two functions of `fugit` (`src/clock.rs`) and one of `itoa`
(`src/display.rs`).
