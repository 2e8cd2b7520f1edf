//! The typed model of the libretro binding surface.

use chip8::av_info::{RetroSystemAVInfo, RetroSystemTiming};
use chip8::option::{IntoIter, Iter};
use chip8::retro::av::{
    GLBufferOptions, GLContextType, GameGeometry, Message, PixelFormat, Region, ScreenRotation,
    SystemAVInfo, SystemTiming,
};
use chip8::retro::cores::{RetroVariable, SystemInfo};
use chip8::retro::device::{DevicePort, DeviceType, DeviceTypeId, JoypadButton};
use chip8::retro::env::NullEnvironment;
use chip8::retro::error::LoadGameError;
use chip8::retro::game::{GameData, GameInfo, GamePath, GameType, SpecialGameInfo};
use chip8::retro::mem::{RetroMemoryType, StandardMemoryType};

#[test]
fn system_info_builders_set_their_flags() {
    let info = SystemInfo::new(
        String::from("chip8.rs"),
        String::from("1.0.0"),
        String::from("png"),
    );
    assert!(!info.need_fullpath());
    assert!(!info.block_extract());
    let info = info.with_need_full_path().with_block_extract();
    assert!(info.need_fullpath());
    assert!(info.block_extract());
    let (name, version, extensions, fullpath, block) = info.into_inner();
    assert_eq!(name, "chip8.rs");
    assert_eq!(version, "1.0.0");
    assert_eq!(extensions, "png");
    assert!(fullpath);
    assert!(block);
}

#[test]
fn av_info_defaults_to_sixty_fps() {
    let geometry = GameGeometry::fixed(512, 256);
    let av = SystemAVInfo::default_timings(geometry);
    assert_eq!(av.geometry().base_width(), 512);
    assert_eq!(av.geometry().max_height(), 256);
    assert_eq!(av.timing().into_inner(), (60000, 44100000));
    let made = SystemAVInfo::new(geometry, SystemTiming::new(50000, 48000000));
    let (g, t) = made.into_inner();
    assert_eq!(g.into_inner(), (512, 256, 512, 256));
    assert_eq!(t.fps_millihertz, 50000);
}

#[test]
fn geometry_variable_keeps_all_four_bounds() {
    let g = GameGeometry::variable(320, 640, 200, 400);
    assert_eq!(g.base_width(), 320);
    assert_eq!(g.max_width(), 640);
    assert_eq!(g.base_height(), 200);
    assert_eq!(g.max_height(), 400);
}

#[test]
fn old_av_info_surface_matches_the_new_one() {
    let geometry = GameGeometry::fixed(64, 32);
    let av = RetroSystemAVInfo::default_timings(geometry);
    assert_eq!(av.timing().into_inner(), (60000, 44100000));
    let made = RetroSystemAVInfo::new(geometry, RetroSystemTiming::new(60000, 32000000));
    let (_, t) = made.into_inner();
    assert_eq!(t.sample_rate_millihertz, 32000000);
}

#[test]
fn region_and_format_codes() {
    assert_eq!(Region::NTSC.code(), 0);
    assert_eq!(Region::PAL.code(), 1);
    assert_eq!(PixelFormat::RGB1555.code(), 0);
    assert_eq!(PixelFormat::XRGB8888.code(), 1);
    assert_eq!(PixelFormat::RGB565.code(), 2);
    assert_eq!(ScreenRotation::TwoSeventyDegrees.code(), 3);
}

#[test]
fn device_ids_round_trip() {
    let id = DeviceTypeId::new(6);
    assert_eq!(id.into_inner(), 6);
    assert_eq!(DeviceType::try_from_id(id), Ok(DeviceType::Pointer));
    assert_eq!(DeviceType::try_from_id(DeviceTypeId::new(7)), Err(()));
    assert_eq!(DeviceType::Joypad.code(), 1);
    assert_eq!(DevicePort::new(2).into_inner(), 2);
}

#[test]
fn joypad_buttons_carry_their_codes() {
    assert_eq!(JoypadButton::B.code(), 0);
    assert_eq!(JoypadButton::Up.code(), 4);
    assert_eq!(JoypadButton::R3.code(), 15);
}

#[test]
fn gl_context_versions() {
    assert_eq!(GLContextType::OpenGL2.version(), (2, 0));
    assert_eq!(GLContextType::OpenGLCore4_6.version(), (4, 6));
    assert_eq!(GLContextType::OpenGLES3.version(), (3, 0));
    assert_eq!(GLBufferOptions::NoBuffers.buffers(), (false, false));
    assert_eq!(GLBufferOptions::DepthAndStencil.buffers(), (true, true));
}

#[test]
fn messages_keep_text_and_frames() {
    let m = Message::new(String::from("hello"), 90);
    assert_eq!(m.msg().as_str(), "hello");
    assert_eq!(m.frames(), 90);
    let rm = chip8::retro::environment::RetroMessage::new(String::from("old"), 30);
    assert_eq!(rm.msg().as_str(), "old");
    assert_eq!(rm.frames(), 30);
}

#[test]
fn game_info_distinguishes_data_and_path() {
    let data = GameData::new(vec![1, 2, 3], None, None);
    let info = GameInfo::from_data(data);
    assert!(info.is_data());
    assert!(!info.is_path());
    assert_eq!(info.as_data().unwrap().data(), &vec![1u8, 2, 3]);
    assert!(info.as_path().is_none());

    let path = GamePath::new(String::from("/roms/game.ch8"), Some(String::from("meta")));
    let info2 = GameInfo::from_path(path);
    assert!(info2.is_path());
    assert_eq!(info2.as_path().unwrap().path().as_str(), "/roms/game.ch8");
}

#[test]
fn special_game_info_can_be_empty() {
    let empty = SpecialGameInfo::Empty;
    assert!(empty.is_none());
    assert!(!empty.is_data());
    let with_data = SpecialGameInfo::from_data(GameData::new(vec![9], None, None));
    assert!(with_data.is_data());
    let with_path = SpecialGameInfo::from_path(GamePath::new(String::from("p"), None));
    assert!(with_path.is_path());
    assert_eq!(GameType::new(4).into_inner(), 4);
}

#[test]
fn memory_type_codes_round_trip() {
    assert_eq!(StandardMemoryType::SaveRam.code(), 0);
    assert_eq!(StandardMemoryType::VideoRam.code(), 3);
    assert_eq!(
        StandardMemoryType::try_from_code(2),
        Ok(StandardMemoryType::SystemRam)
    );
    assert!(StandardMemoryType::try_from_code(9).is_err());
    let sub: RetroMemoryType<u8> = RetroMemoryType::Subsystem(7);
    assert_eq!(sub.standard_code(), None);
    let std_region: RetroMemoryType<u8> = RetroMemoryType::RTC;
    assert_eq!(std_region.standard_code(), Some(1));
}

#[test]
fn load_game_error_hands_the_state_back() {
    let err = LoadGameError::new(41u32);
    assert_eq!(err.into_inner(), 41);
}

#[test]
fn null_environment_exists() {
    let _env = NullEnvironment::new();
}

#[test]
fn option_iterators_yield_once() {
    let value = 7u8;
    let mut it = Iter::new(Some(&value));
    assert_eq!(it.next(), Some(&7));
    assert_eq!(it.next(), None);
    let mut owned = IntoIter::new(Some(String::from("x")));
    assert_eq!(owned.next(), Some(String::from("x")));
    assert_eq!(owned.next(), None);
    let mut none: IntoIter<u8> = IntoIter::new(None);
    assert_eq!(none.next(), None);
}

#[test]
fn retro_variable_wraps_an_answer() {
    let var = RetroVariable::new(Some(String::from("on")));
    assert_eq!(var.0, Some(String::from("on")));
    let unset = RetroVariable::new(None);
    assert!(unset.0.is_none());
}
