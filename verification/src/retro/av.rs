//! Audio/video description types: system timing, game geometry, pixel
//! formats and the OpenGL context options a core can ask a frontend for.

use vstd::prelude::*;

verus! {

/// The set of video regions libretro knows.
#[non_exhaustive]
#[derive(Clone, Copy, Debug, PartialEq, Eq, Hash, Structural)]
pub enum Region {
    /// A 30 frames/second (60 fields/second) video system.
    NTSC,
    /// A 25 frames/second (50 fields/second) video system.
    PAL,
}

impl Region {
    /// The constant the libretro API names this region by.
    pub fn code(&self) -> (r: u32)
        ensures
            r == match self {
                Region::NTSC => 0u32,
                Region::PAL => 1u32,
            },
    {
        match self {
            Region::NTSC => 0,
            Region::PAL => 1,
        }
    }
}

/// The pixel layouts a frontend can upload video frames in.
#[non_exhaustive]
#[derive(Clone, Copy, Debug, PartialEq, Eq, Hash, Structural)]
pub enum PixelFormat {
    RGB1555,
    XRGB8888,
    RGB565,
}

impl PixelFormat {
    /// The constant the libretro API names this format by.
    pub fn code(&self) -> (r: u32)
        ensures
            r == match self {
                PixelFormat::RGB1555 => 0u32,
                PixelFormat::XRGB8888 => 1u32,
                PixelFormat::RGB565 => 2u32,
            },
    {
        match self {
            PixelFormat::RGB1555 => 0,
            PixelFormat::XRGB8888 => 1,
            PixelFormat::RGB565 => 2,
        }
    }
}

/// Screen rotation a core can request, in steps of 90 degrees.
#[derive(Clone, Copy, Debug, PartialEq, Eq, Hash, Structural)]
pub enum ScreenRotation {
    ZeroDegrees,
    NinetyDegrees,
    OneEightyDegrees,
    TwoSeventyDegrees,
}

impl ScreenRotation {
    /// The rotation in counter-clockwise 90-degree steps, as the API counts.
    pub fn code(&self) -> (r: u32)
        ensures
            r == match self {
                ScreenRotation::ZeroDegrees => 0u32,
                ScreenRotation::NinetyDegrees => 1u32,
                ScreenRotation::OneEightyDegrees => 2u32,
                ScreenRotation::TwoSeventyDegrees => 3u32,
            },
    {
        match self {
            ScreenRotation::ZeroDegrees => 0,
            ScreenRotation::NinetyDegrees => 1,
            ScreenRotation::OneEightyDegrees => 2,
            ScreenRotation::TwoSeventyDegrees => 3,
        }
    }
}

/// Frame timing of a system: frame rate and audio sample rate, both held in
/// millihertz so that fractional rates stay exact.
#[derive(Clone, Copy, Debug, PartialEq, Eq, Hash, Structural)]
pub struct SystemTiming {
    pub fps_millihertz: u64,
    pub sample_rate_millihertz: u64,
}

impl SystemTiming {
    /// Main constructor, over millihertz values.
    pub fn new(fps_millihertz: u64, sample_rate_millihertz: u64) -> (r: SystemTiming)
        ensures
            r.fps_millihertz == fps_millihertz,
            r.sample_rate_millihertz == sample_rate_millihertz,
    {
        SystemTiming { fps_millihertz, sample_rate_millihertz }
    }

    /// The two rates, frame rate first.
    pub fn into_inner(self) -> (r: (u64, u64))
        ensures
            r.0 == self.fps_millihertz,
            r.1 == self.sample_rate_millihertz,
    {
        (self.fps_millihertz, self.sample_rate_millihertz)
    }
}

impl Default for SystemTiming {
    /// 60 frames per second and a 44.1 kHz sample rate.
    fn default() -> (r: SystemTiming)
        ensures
            r.fps_millihertz == 60000,
            r.sample_rate_millihertz == 44100000,
    {
        SystemTiming { fps_millihertz: 60000, sample_rate_millihertz: 44100000 }
    }
}

/// Base and maximum dimensions of the video a core produces.
#[derive(Clone, Copy, Debug, PartialEq, Eq, Hash, Structural)]
pub struct GameGeometry {
    pub base_width: u16,
    pub base_height: u16,
    pub max_width: u16,
    pub max_height: u16,
}

impl GameGeometry {
    /// Geometry with fixed width and height.
    pub fn fixed(width: u16, height: u16) -> (r: GameGeometry)
        ensures
            r.base_width == width,
            r.base_height == height,
            r.max_width == width,
            r.max_height == height,
    {
        GameGeometry { base_width: width, base_height: height, max_width: width, max_height: height }
    }

    /// Geometry with the given base and maximum width and height.
    pub fn variable(base_width: u16, max_width: u16, base_height: u16, max_height: u16) -> (r:
        GameGeometry)
        ensures
            r.base_width == base_width,
            r.base_height == base_height,
            r.max_width == max_width,
            r.max_height == max_height,
    {
        GameGeometry { base_width, base_height, max_width, max_height }
    }

    /// The nominal video width.
    pub fn base_width(&self) -> (r: u16)
        ensures
            r == self.base_width,
    {
        self.base_width
    }

    /// The nominal video height.
    pub fn base_height(&self) -> (r: u16)
        ensures
            r == self.base_height,
    {
        self.base_height
    }

    /// The largest width the core may ever use.
    pub fn max_width(&self) -> (r: u16)
        ensures
            r == self.max_width,
    {
        self.max_width
    }

    /// The largest height the core may ever use.
    pub fn max_height(&self) -> (r: u16)
        ensures
            r == self.max_height,
    {
        self.max_height
    }

    /// The four dimensions widened to the unsigned words the API carries:
    /// base width, base height, maximum width, maximum height.
    pub fn into_inner(self) -> (r: (u32, u32, u32, u32))
        ensures
            r.0 == self.base_width,
            r.1 == self.base_height,
            r.2 == self.max_width,
            r.3 == self.max_height,
    {
        (self.base_width as u32, self.base_height as u32, self.max_width as u32, self.max_height
            as u32)
    }
}

/// Everything a frontend needs to set up audio and video for a core.
#[derive(Clone, Copy, Debug, PartialEq, Eq, Hash, Structural)]
pub struct SystemAVInfo {
    pub geometry: GameGeometry,
    pub timing: SystemTiming,
}

impl SystemAVInfo {
    /// Main constructor.
    pub fn new(geometry: GameGeometry, timing: SystemTiming) -> (r: SystemAVInfo)
        ensures
            r.geometry == geometry,
            r.timing == timing,
    {
        SystemAVInfo { geometry, timing }
    }

    /// An info block with the default timing.
    pub fn default_timings(geometry: GameGeometry) -> (r: SystemAVInfo)
        ensures
            r.geometry == geometry,
            r.timing.fps_millihertz == 60000,
            r.timing.sample_rate_millihertz == 44100000,
    {
        SystemAVInfo { geometry, timing: Default::default() }
    }

    /// The geometry part.
    pub fn geometry(&self) -> (r: GameGeometry)
        ensures
            r == self.geometry,
    {
        self.geometry
    }

    /// The timing part.
    pub fn timing(&self) -> (r: SystemTiming)
        ensures
            r == self.timing,
    {
        self.timing
    }

    /// Both parts, geometry first.
    pub fn into_inner(self) -> (r: (GameGeometry, SystemTiming))
        ensures
            r.0 == self.geometry,
            r.1 == self.timing,
    {
        (self.geometry, self.timing)
    }
}

/// A message a core asks the frontend to display for a number of frames.
#[derive(Clone, Debug)]
pub struct Message {
    pub msg: String,
    pub frames: u32,
}

impl Message {
    /// A message shown for `frames` video frames.
    pub fn new(msg: String, frames: u32) -> (r: Message)
        ensures
            r.msg@ == msg@,
            r.frames == frames,
    {
        Message { msg, frames }
    }

    /// The text to display.
    pub fn msg(&self) -> (r: &String)
        ensures
            r@ == self.msg@,
    {
        &self.msg
    }

    /// How many frames to display it for.
    pub fn frames(&self) -> (r: u32)
        ensures
            r == self.frames,
    {
        self.frames
    }
}

/// Witness that software rendering was negotiated; only the binding layer
/// can mint one.
#[derive(Clone, Copy, Debug, PartialEq, Eq, Hash)]
pub struct GLRenderEnabled(pub(crate) ());

/// Capability of a negotiated hardware rendering context.
pub trait HWRenderEnabled: Sealed {
}

/// Seals [`HWRenderEnabled`] to the binding layer's own witnesses.
pub trait Sealed {
}

impl Sealed for GLRenderEnabled {
}

impl HWRenderEnabled for GLRenderEnabled {
}

/// Stands for the pair of callbacks an OpenGL frontend hands a core after
/// context negotiation; the function pointers themselves live with the host.
#[derive(Clone, Copy, Debug, PartialEq, Eq, Hash)]
pub struct GLContextCallbacks(pub(crate) ());

/// The OpenGL context kinds a core can request.
#[derive(Clone, Copy, Debug, PartialEq, Eq, Hash, Structural)]
pub enum GLContextType {
    OpenGL2,
    OpenGLCore3_2,
    OpenGLCore3_3,
    OpenGLCore4_0,
    OpenGLCore4_1,
    OpenGLCore4_2,
    OpenGLCore4_3,
    OpenGLCore4_4,
    OpenGLCore4_5,
    OpenGLCore4_6,
    OpenGLES2,
    OpenGLES3,
}

impl GLContextType {
    /// The major and minor GL version this context kind asks for.
    pub fn version(&self) -> (r: (u8, u8))
        ensures
            r == match self {
                GLContextType::OpenGL2 => (2u8, 0u8),
                GLContextType::OpenGLCore3_2 => (3u8, 2u8),
                GLContextType::OpenGLCore3_3 => (3u8, 3u8),
                GLContextType::OpenGLCore4_0 => (4u8, 0u8),
                GLContextType::OpenGLCore4_1 => (4u8, 1u8),
                GLContextType::OpenGLCore4_2 => (4u8, 2u8),
                GLContextType::OpenGLCore4_3 => (4u8, 3u8),
                GLContextType::OpenGLCore4_4 => (4u8, 4u8),
                GLContextType::OpenGLCore4_5 => (4u8, 5u8),
                GLContextType::OpenGLCore4_6 => (4u8, 6u8),
                GLContextType::OpenGLES2 => (2u8, 0u8),
                GLContextType::OpenGLES3 => (3u8, 0u8),
            },
    {
        match self {
            GLContextType::OpenGL2 => (2, 0),
            GLContextType::OpenGLCore3_2 => (3, 2),
            GLContextType::OpenGLCore3_3 => (3, 3),
            GLContextType::OpenGLCore4_0 => (4, 0),
            GLContextType::OpenGLCore4_1 => (4, 1),
            GLContextType::OpenGLCore4_2 => (4, 2),
            GLContextType::OpenGLCore4_3 => (4, 3),
            GLContextType::OpenGLCore4_4 => (4, 4),
            GLContextType::OpenGLCore4_5 => (4, 5),
            GLContextType::OpenGLCore4_6 => (4, 6),
            GLContextType::OpenGLES2 => (2, 0),
            GLContextType::OpenGLES3 => (3, 0),
        }
    }
}

/// Which ancillary buffers an OpenGL context is created with.
#[derive(Clone, Copy, Debug, PartialEq, Eq, Hash, Structural)]
pub enum GLBufferOptions {
    NoBuffers,
    DepthOnly,
    DepthAndStencil,
}

impl GLBufferOptions {
    /// Whether a depth buffer and a stencil buffer are requested.
    pub fn buffers(&self) -> (r: (bool, bool))
        ensures
            r == match self {
                GLBufferOptions::NoBuffers => (false, false),
                GLBufferOptions::DepthOnly => (true, false),
                GLBufferOptions::DepthAndStencil => (true, true),
            },
    {
        match self {
            GLBufferOptions::NoBuffers => (false, false),
            GLBufferOptions::DepthOnly => (true, false),
            GLBufferOptions::DepthAndStencil => (true, true),
        }
    }
}

} // verus!
