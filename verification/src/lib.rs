//! Activity tracking: while a named task is active, pointer and keyboard
//! readings are turned into timestamped samples and collected in a store
//! that is handed out for saving when tracking stops.

pub mod controller;
pub mod device;
pub mod flag;
pub mod sample;
pub mod store;
pub mod tracking;
