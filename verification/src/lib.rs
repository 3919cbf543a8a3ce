//! Host-side command encoding for an addressable USB RGB lamp controller.
//!
//! The crate models the controller's HID report catalog: lamp colors in two
//! wire color spaces, animation payloads, the fixed set of command reports
//! with their byte-exact body layouts, and a device facade that frames each
//! report and hands it to a transport for one of the two HID interfaces.

pub mod animation;
pub mod color;
pub mod commands;
pub mod device;
pub mod report;
pub mod temperature;
pub mod wire;
