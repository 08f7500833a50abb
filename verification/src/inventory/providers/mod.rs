//! The providers that observe devices: Bluetooth pairings, live mirror
//! sources, and devices known from earlier sessions.
pub mod known_devices;
pub mod bluetooth;
pub mod mirror;
