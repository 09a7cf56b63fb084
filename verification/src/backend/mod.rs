//! What devices do with kernel events.
pub mod arbitration;
pub mod balance;
pub mod buttons;
pub mod cycle;
pub mod debounce;
pub mod describe;
pub mod gestures;
pub mod keyboard;
pub mod live;
pub mod measure;
pub mod mend;
pub mod pad;
pub mod pointer;
pub mod probe;
pub mod release;
pub mod room;
pub mod scroll;
pub mod slots;
pub mod start;
pub mod state;
pub mod tablet;
pub mod timers;
pub mod tools;
pub mod touchpad;
pub mod touchscreen;
pub mod wheel;
