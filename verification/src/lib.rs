//! Layered keyboard-lighting compositor and the decision core of the control
//! daemon: which frame to render each cycle, what one client request asks of
//! the device, and how system events switch the lighting.

pub mod clock;
pub mod comms;
pub mod daemon;
pub mod effects;
pub mod layers;
pub mod manager;
pub mod monitors;
pub mod rgb;
