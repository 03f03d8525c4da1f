//! A cycle-approximated Game Boy / Game Boy Color emulator core.
pub mod apu;
pub mod bits;
pub mod cartridge;
pub mod clock;
pub mod convention;
pub mod cpu;
pub mod gpu;
pub mod intf;
pub mod joypad;
pub mod mmunit;
pub mod motherboard;
pub mod register;
pub mod serial;
pub mod timer;
