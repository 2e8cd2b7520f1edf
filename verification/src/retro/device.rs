//! Input device identification: ports, device type ids and the standard
//! joypad buttons.

use vstd::prelude::*;

verus! {

/// A numeric id for a device type provided by the frontend; the standard
/// types also appear as [`DeviceType`].
#[derive(Clone, Copy, Debug, Default, PartialEq, Eq, Hash, Structural)]
pub struct DeviceTypeId(pub u32);

impl DeviceTypeId {
    /// Wraps a raw device type id.
    pub fn new(id: u32) -> (r: DeviceTypeId)
        ensures
            r.0 == id,
    {
        DeviceTypeId(id)
    }

    /// The raw id.
    pub fn into_inner(self) -> (r: u32)
        ensures
            r == self.0,
    {
        self.0
    }
}

/// The standard device types of the libretro API.
#[non_exhaustive]
#[derive(Clone, Copy, Debug, PartialEq, Eq, Hash, Structural)]
pub enum DeviceType {
    NoDevice,
    Joypad,
    Mouse,
    Keyboard,
    LightGun,
    Analog,
    Pointer,
}

impl DeviceType {
    /// The constant the libretro API names this device type by.
    pub fn code(&self) -> (r: u32)
        ensures
            r == match self {
                DeviceType::NoDevice => 0u32,
                DeviceType::Joypad => 1u32,
                DeviceType::Mouse => 2u32,
                DeviceType::Keyboard => 3u32,
                DeviceType::LightGun => 4u32,
                DeviceType::Analog => 5u32,
                DeviceType::Pointer => 6u32,
            },
    {
        match self {
            DeviceType::NoDevice => 0,
            DeviceType::Joypad => 1,
            DeviceType::Mouse => 2,
            DeviceType::Keyboard => 3,
            DeviceType::LightGun => 4,
            DeviceType::Analog => 5,
            DeviceType::Pointer => 6,
        }
    }

    /// The standard device type behind a raw id, exactly for ids 0 to 6.
    pub fn try_from_id(val: DeviceTypeId) -> (r: Result<DeviceType, ()>)
        ensures
            val.0 <= 6 ==> (r matches Ok(d) && d.code_spec() == val.0),
            val.0 > 6 ==> r is Err,
    {
        match val.0 {
            0 => Ok(DeviceType::NoDevice),
            1 => Ok(DeviceType::Joypad),
            2 => Ok(DeviceType::Mouse),
            3 => Ok(DeviceType::Keyboard),
            4 => Ok(DeviceType::LightGun),
            5 => Ok(DeviceType::Analog),
            6 => Ok(DeviceType::Pointer),
            _ => Err(()),
        }
    }

    /// The constant this device type stands for, as `code` returns it.
    pub open spec fn code_spec(&self) -> u32 {
        match self {
            DeviceType::NoDevice => 0u32,
            DeviceType::Joypad => 1u32,
            DeviceType::Mouse => 2u32,
            DeviceType::Keyboard => 3u32,
            DeviceType::LightGun => 4u32,
            DeviceType::Analog => 5u32,
            DeviceType::Pointer => 6u32,
        }
    }
}

/// A controller port of the frontend.
#[derive(Clone, Copy, Debug, Default, PartialEq, Eq, Hash, Structural)]
pub struct DevicePort(pub u32);

impl DevicePort {
    /// Wraps a port number.
    pub fn new(port_number: u32) -> (r: DevicePort)
        ensures
            r.0 == port_number,
    {
        DevicePort(port_number)
    }

    /// The port number.
    pub fn into_inner(self) -> (r: u32)
        ensures
            r == self.0,
    {
        self.0
    }
}

/// The standard joypad buttons.
#[non_exhaustive]
#[derive(Clone, Copy, Debug, PartialEq, Eq, Hash, Structural)]
pub enum JoypadButton {
    B,
    Y,
    Select,
    Start,
    Up,
    Down,
    Left,
    Right,
    A,
    X,
    L1,
    R1,
    L2,
    R2,
    L3,
    R3,
}

impl JoypadButton {
    /// The constant the libretro API names this button by.
    pub fn code(&self) -> (r: u32)
        ensures
            r == match self {
                JoypadButton::B => 0u32,
                JoypadButton::Y => 1u32,
                JoypadButton::Select => 2u32,
                JoypadButton::Start => 3u32,
                JoypadButton::Up => 4u32,
                JoypadButton::Down => 5u32,
                JoypadButton::Left => 6u32,
                JoypadButton::Right => 7u32,
                JoypadButton::A => 8u32,
                JoypadButton::X => 9u32,
                JoypadButton::L1 => 10u32,
                JoypadButton::R1 => 11u32,
                JoypadButton::L2 => 12u32,
                JoypadButton::R2 => 13u32,
                JoypadButton::L3 => 14u32,
                JoypadButton::R3 => 15u32,
            },
    {
        match self {
            JoypadButton::B => 0,
            JoypadButton::Y => 1,
            JoypadButton::Select => 2,
            JoypadButton::Start => 3,
            JoypadButton::Up => 4,
            JoypadButton::Down => 5,
            JoypadButton::Left => 6,
            JoypadButton::Right => 7,
            JoypadButton::A => 8,
            JoypadButton::X => 9,
            JoypadButton::L1 => 10,
            JoypadButton::R1 => 11,
            JoypadButton::L2 => 12,
            JoypadButton::R2 => 13,
            JoypadButton::L3 => 14,
            JoypadButton::R3 => 15,
        }
    }
}

} // verus!
