//! Control logic of a chicken-egg incubator: temperature regulation through two
//! relays, the texts of its small display and serial port, and the sequencing of
//! its sensors and screen.

pub mod bus;
pub mod controller;
pub mod cycle;
pub mod digits;
pub mod label;
pub mod message;
pub mod relay;
pub mod temperature;
