//! The earlier naming of the environment capabilities, kept for
//! compatibility: one marker trait per callback context, suffixed
//! `Environment`, and the message type of that surface.

use vstd::prelude::*;
use crate::retro::av::ScreenRotation;
use crate::retro::env::NullEnvironment;

verus! {

/// Values that can travel through an environment command.
pub trait RetroEnvironmentData {
}

/// Answers an environment command can produce.
pub trait CommandOutput {
}

/// Results an environment query can be converted into.
pub trait RetroEnvironmentResult {
}

/// Commands legal while the environment callback is installed.
pub trait SetEnvironmentEnvironment {
}

/// Commands legal during core initialization.
pub trait InitEnvironment {
}

/// Commands legal while a controller port device is assigned.
pub trait SetPortDeviceEnvironment {
}

/// Commands legal during a reset.
pub trait ResetEnvironment {
}

/// Commands legal while the save-state size is queried.
pub trait SerializeSizeEnvironment {
}

/// Commands legal during save-state serialization.
pub trait SerializeEnvironment {
}

/// Commands legal during save-state restoration.
pub trait UnserializeEnvironment {
}

/// Commands legal while cheats are cleared.
pub trait CheatResetEnvironment {
}

/// Commands legal while a cheat is applied.
pub trait CheatSetEnvironment {
}

/// Commands legal while the region is queried.
pub trait GetRegionEnvironment {
}

/// Commands legal during special-format game loading.
pub trait LoadGameSpecialEnvironment {
}

/// Commands legal while a game is unloaded.
pub trait UnloadGameEnvironment {
}

/// Commands legal while a memory region's data is queried.
pub trait GetMemoryDataEnvironment {
}

/// Commands legal while a memory region's size is queried.
pub trait GetMemorySizeEnvironment {
}

impl SetEnvironmentEnvironment for NullEnvironment {
}

impl InitEnvironment for NullEnvironment {
}

impl SetPortDeviceEnvironment for NullEnvironment {
}

impl ResetEnvironment for NullEnvironment {
}

impl SerializeSizeEnvironment for NullEnvironment {
}

impl SerializeEnvironment for NullEnvironment {
}

impl UnserializeEnvironment for NullEnvironment {
}

impl CheatResetEnvironment for NullEnvironment {
}

impl CheatSetEnvironment for NullEnvironment {
}

impl GetRegionEnvironment for NullEnvironment {
}

impl LoadGameSpecialEnvironment for NullEnvironment {
}

impl UnloadGameEnvironment for NullEnvironment {
}

impl GetMemoryDataEnvironment for NullEnvironment {
}

impl GetMemorySizeEnvironment for NullEnvironment {
}

/// A message a core asks the frontend to display for a number of frames, as
/// this surface names it.
#[derive(Clone, Debug)]
pub struct RetroMessage {
    pub msg: String,
    pub frames: u32,
}

impl RetroMessage {
    /// A message shown for `frames` video frames.
    pub fn new(msg: String, frames: u32) -> (r: RetroMessage)
        ensures
            r.msg@ == msg@,
            r.frames == frames,
    {
        RetroMessage { msg, frames }
    }

    /// The text to display.
    pub fn msg(&self) -> (r: &String)
        ensures
            r@ == self.msg@,
    {
        &self.msg
    }

    /// How many frames to display it for.
    pub fn frames(&self) -> (r: u32)
        ensures
            r == self.frames,
    {
        self.frames
    }
}

impl RetroEnvironmentData for RetroMessage {
}

impl RetroEnvironmentData for ScreenRotation {
}

} // verus!
