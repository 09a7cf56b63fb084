//! What the library promises: which value of the kernel ends up in which field
//! of an event, which way movement goes, what belongs together, and what
//! settings, quirks and names mean. Kernel codes are written as the kernel
//! numbers them, times in nanoseconds.
pub mod buttons;
pub mod companion;
pub mod contacts;
pub mod devices;
pub mod fingers;
pub mod keys;
pub mod openings;
pub mod pads;
pub mod pens;
pub mod pointers;
pub mod profiles;
pub mod proximity;
pub mod queue;
pub mod quirks;
pub mod recovery;
pub mod releases;
pub mod routes;
pub mod settings;
pub mod taps;
pub mod texts;
pub mod wheels;
pub mod yielding;
