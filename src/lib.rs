//! Core of an 8-bit handheld console: register file, instruction decoder,
//! cartridge bank controllers, memory bus and CPU engine.
pub mod registers;
pub mod instruction;
pub mod cartridge;
pub mod bus;
pub mod cpu;
pub mod session;
pub mod config;
