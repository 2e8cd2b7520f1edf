//! Typed model of the libretro binding surface: the plain data the binding
//! layer exchanges with a frontend, over ordinary values with exact
//! contracts. The marshaling itself - C strings, raw pointers, callback
//! tables - has no algorithmic content and lives with the host.

pub mod av;
pub mod cores;
pub mod device;
pub mod env;
pub mod environment;
pub mod error;
pub mod game;
pub mod mem;
