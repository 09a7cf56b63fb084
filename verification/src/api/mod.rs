//! The interface that clients see. An object that a client does not have is
//! `None`; every function says what it does without one.
pub mod context;
pub mod device_config;
pub mod device_info;
pub mod dispatch;
pub mod events;
pub mod lifecycle;
pub mod logging;
pub mod notices;
pub mod opening;
pub mod paths;
pub mod seats;
pub mod settings;
pub mod tablets;
