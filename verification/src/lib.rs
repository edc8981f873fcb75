pub mod address;
pub mod apu;
mod bits;
pub mod bus;
pub mod clock;
pub mod controller;
pub mod cpu;
pub mod debug;
pub mod interrupt;
pub mod mapper;
pub mod ops;
pub mod ppu;
pub mod rom;
pub mod system;

pub use system::{irq, nmi, reset, tick};
