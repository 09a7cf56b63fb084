# libinput-rs

A verified input library: from kernel input events to the events of the
libinput interface, with the tools and the companion that go with it.

The library in `src/` is written in Verus. Everything that decides is there, and
every function states what it returns or changes; Verus proves it. What is left
to `app/` is opening and reading devices, floating-point scaling, the C
interface, and printing.

## Layout

- `src/backend/` — devices: what they are (`probe`, `mend`, `describe`, `start`), what
  their events mean (`pointer`, `buttons`, `debounce`, `wheel`, `scroll`,
  `keyboard`, `touchpad`, `gestures`, `touchscreen`, `tablet`, `tools`, `pad`),
  how a whole device and all devices behave (`live`, `cycle`, `timers`,
  `state`), how touch yields to tablet tools (`arbitration`), and what holds of
  gestures and releases (`balance`, `release`).
- `src/api/` — contexts: taking devices in and letting them go, reading events
  and queueing them, seats, groups and plugins, device configuration, and what
  clients read off devices and events.
- `src/quirks/` — quirks files and how they apply to a device.
- `src/evtrans.rs`, `src/capforge.rs`, `src/hwdetect.rs`, `src/chwd_input.rs` —
  button transitions and seat counts, capabilities, the udev database, hardware
  profiles.
- `src/device.rs`, `src/virtual_device.rs`, `src/config.rs` — the companion.
- `src/elan_recover.rs`, `src/udev_callout.rs`, `src/commands.rs`,
  `src/nodes.rs` — the tools.
- `src/text.rs`, `src/clock.rs`, `src/codes.rs`, `src/ffi_types.rs` — what the
  others are built from.
- `tests/` — the library on concrete values.
- `app/` — the programs around it.

## Conventions

Time is a number of nanoseconds that the caller passes in. A device, a seat, a
group and a tool are named by their places in the lists of their context.
Functions that report append to a list of events; seat-wide counts are filled in
when events are queued. Distances stay in the units of the device.
