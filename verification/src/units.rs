//! The unit machines and the parsing and formatting logic they share with
//! the event loop.
pub mod bat;
pub mod cpu;
pub mod disk;
pub mod mem;
pub mod net;
pub mod time;
pub mod weather;
pub mod wifi;
