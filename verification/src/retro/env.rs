//! Environment capabilities: which frontend commands a core may issue in
//! each libretro callback. Each marker trait names one callback context; a
//! command method takes the narrowest context it is legal in. The command
//! transport itself is the host's.

use vstd::prelude::*;

verus! {

/// Commands legal while the environment callback is being installed.
pub trait SetEnvironment {
}

/// Commands legal during core initialization.
pub trait Init {
}

/// Commands legal while a controller port device is being assigned.
pub trait SetPortDevice {
}

/// Commands legal during a reset.
pub trait Reset {
}

/// Commands legal during a frame run.
pub trait Run {
}

/// Commands legal while the save-state size is queried.
pub trait SerializeSize {
}

/// Commands legal during save-state serialization.
pub trait Serialize {
}

/// Commands legal during save-state restoration.
pub trait Unserialize {
}

/// Commands legal while cheats are being cleared.
pub trait CheatReset {
}

/// Commands legal while a cheat is being applied.
pub trait CheatSet {
}

/// Commands legal while audio/video information is queried.
pub trait GetAvInfo {
}

/// Commands legal while the region is queried.
pub trait GetRegion {
}

/// Commands legal during special-format game loading.
pub trait LoadGameSpecial {
}

/// Commands legal while a game is unloaded.
pub trait UnloadGame {
}

/// Commands legal while a memory region's data is queried.
pub trait GetMemoryData {
}

/// Commands legal while a memory region's size is queried.
pub trait GetMemorySize {
}

/// Commands legal during core teardown.
pub trait Deinit {
}

/// Values a frontend command can carry.
pub trait CommandData {
}

/// Where a framebuffer's origin sits.
#[non_exhaustive]
#[derive(Clone, Copy, Debug, PartialEq, Eq, Hash, Structural)]
pub enum Origin {
    TopLeft,
    BottomRight,
}

/// An environment that implements no commands: every context, no answers.
/// Useful for driving a core without a frontend.
#[derive(Clone, Copy, Debug, Default, PartialEq, Eq, Hash)]
pub struct NullEnvironment(pub(crate) ());

impl NullEnvironment {
    /// Creates the empty environment.
    pub fn new() -> NullEnvironment {
        NullEnvironment(())
    }
}

impl SetEnvironment for NullEnvironment {
}

impl Init for NullEnvironment {
}

impl SetPortDevice for NullEnvironment {
}

impl Reset for NullEnvironment {
}

impl Run for NullEnvironment {
}

impl SerializeSize for NullEnvironment {
}

impl Serialize for NullEnvironment {
}

impl Unserialize for NullEnvironment {
}

impl CheatReset for NullEnvironment {
}

impl CheatSet for NullEnvironment {
}

impl GetAvInfo for NullEnvironment {
}

impl GetRegion for NullEnvironment {
}

impl LoadGameSpecial for NullEnvironment {
}

impl UnloadGame for NullEnvironment {
}

impl GetMemoryData for NullEnvironment {
}

impl GetMemorySize for NullEnvironment {
}

impl Deinit for NullEnvironment {
}

} // verus!
