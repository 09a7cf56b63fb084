//! Input-device event processing: the rules that turn kernel input events
//! into pointer, keyboard, touch, gesture and tablet events.
pub mod capforge;
pub mod chwd_input;
pub mod clock;
pub mod codes;
pub mod commands;
pub mod config;
pub mod device;
pub mod elan_recover;
pub mod evtrans;
pub mod ffi_types;
pub mod hwdetect;
pub mod laws;
pub mod nodes;
pub mod quirks;
pub mod text;
pub mod udev_callout;
pub mod virtual_device;
pub mod api;
pub mod backend;
