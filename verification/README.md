# split_keyboard

The logic of a keyboard in two halves, verified with Verus, and the firmware around it.

Each half scans its switches, acts as a USB keyboard, and reports to the other half over ESP-NOW,
so that both halves give the same key events to whatever they are plugged into.

- `src/message.rs`: the messages between the halves and their four-byte wire format
- `src/keycodes.rs`, `src/keymap.rs`: HID usage codes, and what each switch does on each layer
- `src/controller.rs`: layers, held switches, and what follows when a switch moves or the other
  half reports
- `src/link.rs`: peers, announcements, and what a received frame is
- `src/schedule.rs`: the order of the work in a pass, and the periods of the timed work
- `src/lights.rs`: the lights under the keys, on top of the `smart-leds` crate
- `src/laws.rs`: what holds of the keyboard as a whole
- `app/`: the firmware for an ESP32-S3, for the left half where `KEYBOARD_HALF=left` is set in the
  environment of the build and for the right half otherwise
