# black_sitizator

The hardware-independent logic of a small STM32 synthesizer (WeAct
STM32F411 BlackPill and NUCLEO-H743ZI2), written in Verus and proved against
its contracts.

- `src/util.rs` – vibrato pitch shift, pitch-to-brightness mapping, track length
- `src/songs.rs` – the Tetris melody and bass tracks (proved to be phase-locked)
- `src/voice.rs` – voice commands and the round-robin voice allocator
  - `src/voice/f4.rs` – the two square-wave voices of the F411 board
  - `src/voice/h7.rs` – the eight-voice DDS triangle mixer of the H743 board
- `src/usb.rs` – USB-MIDI event and packet handling
- `src/button.rs` – the test-note button
- `src/light_show.rs` – the LED flash and fade for each note
- `src/clock.rs` – the clock-tree plans of both boards
- `src/probe.rs` – the echo rule of the USB CDC probe firmware

`app/` is the H743 firmware around the library: Embassy tasks, PWM, GPIO,
USB and the queues between tasks. Each task reads its input, asks the
library what to do, and does it. `app/square_voices.rs` holds the
two-voice square-wave tasks of the F411 profile and `app/probe.rs` the USB
CDC probe program's tasks, both written against the same HAL.
