//! The memory region types of the libretro API, by which a frontend asks a
//! core for save RAM and friends.

use vstd::prelude::*;

verus! {

/// The `RETRO_MEMORY_*` constants of `libretro.h`.
#[derive(Clone, Copy, Debug, PartialEq, Eq, Hash, Structural)]
pub enum StandardMemoryType {
    SaveRam,
    RTC,
    SystemRam,
    VideoRam,
}

impl StandardMemoryType {
    /// The constant this memory type stands for, as `code` returns it.
    pub open spec fn code_spec(&self) -> u32 {
        match self {
            StandardMemoryType::SaveRam => 0u32,
            StandardMemoryType::RTC => 1u32,
            StandardMemoryType::SystemRam => 2u32,
            StandardMemoryType::VideoRam => 3u32,
        }
    }

    /// The constant the libretro API names this memory type by.
    pub fn code(&self) -> (r: u32)
        ensures
            r == self.code_spec(),
    {
        match self {
            StandardMemoryType::SaveRam => 0,
            StandardMemoryType::RTC => 1,
            StandardMemoryType::SystemRam => 2,
            StandardMemoryType::VideoRam => 3,
        }
    }

    /// The standard memory type behind a raw constant, exactly for 0 to 3.
    pub fn try_from_code(code: u32) -> (r: Result<
        StandardMemoryType,
        TryFromRetroMemoryTypeError,
    >)
        ensures
            code <= 3 ==> (r matches Ok(t) && t.code_spec() == code),
            code > 3 ==> r is Err,
    {
        match code {
            0 => Ok(StandardMemoryType::SaveRam),
            1 => Ok(StandardMemoryType::RTC),
            2 => Ok(StandardMemoryType::SystemRam),
            3 => Ok(StandardMemoryType::VideoRam),
            _ => Err(TryFromRetroMemoryTypeError(())),
        }
    }
}

/// Conversion of an unknown constant to a memory type failed.
#[derive(Clone, Copy, Debug, PartialEq, Eq, Hash)]
pub struct TryFromRetroMemoryTypeError(pub(crate) ());

/// A memory region type: one of the standard regions, or a user-defined
/// subsystem region.
#[derive(Clone, Copy, Debug, PartialEq, Eq)]
pub enum RetroMemoryType<T> {
    SaveRam,
    RTC,
    SystemRam,
    VideoRam,
    Subsystem(T),
}

impl<T> RetroMemoryType<T> {
    /// The API constant of a standard region; a subsystem region has none of
    /// its own.
    pub fn standard_code(&self) -> (r: Option<u16>)
        ensures
            match self {
                RetroMemoryType::SaveRam => r == Some(0u16),
                RetroMemoryType::RTC => r == Some(1u16),
                RetroMemoryType::SystemRam => r == Some(2u16),
                RetroMemoryType::VideoRam => r == Some(3u16),
                RetroMemoryType::Subsystem(_) => r is None,
            },
    {
        match self {
            RetroMemoryType::SaveRam => Some(0),
            RetroMemoryType::RTC => Some(1),
            RetroMemoryType::SystemRam => Some(2),
            RetroMemoryType::VideoRam => Some(3),
            RetroMemoryType::Subsystem(_) => None,
        }
    }
}

} // verus!
