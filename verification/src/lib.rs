//! A verified CHIP-8 virtual machine with a typed model of the libretro
//! binding surface.
//!
//! The heart of the crate is the interpreter: `Memory`, `Stack`, `Random`,
//! `Keyboard`, `Timer`, `Display` and the `Cpu` that drives them through a
//! fetch-decode-execute loop. Every instruction's effect on the machine state
//! is stated in the contracts and proved. The `retro` module holds the plain
//! data types of the libretro layer (system info, geometry, devices, games),
//! modelled over ordinary values so that their constructors and accessors
//! carry exact contracts.

pub mod av_info;
pub mod cpu;
pub mod display;
pub mod keyboard;
pub mod memory;
pub mod option;
pub mod random;
pub mod retro;
pub mod stack;
pub mod timer;
