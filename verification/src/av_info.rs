//! The earlier naming of the audio/video description types, kept for
//! compatibility with the first binding surface.

use vstd::prelude::*;
use crate::retro::av::GameGeometry;

verus! {

/// Frame timing of a system under its earlier name; rates in millihertz.
#[derive(Clone, Copy, Debug, PartialEq, Eq, Hash, Structural)]
pub struct RetroSystemTiming {
    pub fps_millihertz: u64,
    pub sample_rate_millihertz: u64,
}

impl RetroSystemTiming {
    /// Main constructor, over millihertz values.
    pub fn new(fps_millihertz: u64, sample_rate_millihertz: u64) -> (r: RetroSystemTiming)
        ensures
            r.fps_millihertz == fps_millihertz,
            r.sample_rate_millihertz == sample_rate_millihertz,
    {
        RetroSystemTiming { fps_millihertz, sample_rate_millihertz }
    }

    /// The two rates, frame rate first.
    pub fn into_inner(self) -> (r: (u64, u64))
        ensures
            r.0 == self.fps_millihertz,
            r.1 == self.sample_rate_millihertz,
    {
        (self.fps_millihertz, self.sample_rate_millihertz)
    }
}

impl Default for RetroSystemTiming {
    /// 60 frames per second and a 44.1 kHz sample rate.
    fn default() -> (r: RetroSystemTiming)
        ensures
            r.fps_millihertz == 60000,
            r.sample_rate_millihertz == 44100000,
    {
        RetroSystemTiming { fps_millihertz: 60000, sample_rate_millihertz: 44100000 }
    }
}

/// Audio/video setup information under its earlier name.
#[derive(Clone, Copy, Debug, PartialEq, Eq, Hash, Structural)]
pub struct RetroSystemAVInfo {
    pub geometry: GameGeometry,
    pub timing: RetroSystemTiming,
}

impl RetroSystemAVInfo {
    /// Main constructor.
    pub fn new(geometry: GameGeometry, timing: RetroSystemTiming) -> (r: RetroSystemAVInfo)
        ensures
            r.geometry == geometry,
            r.timing == timing,
    {
        RetroSystemAVInfo { geometry, timing }
    }

    /// An info block with the default timing.
    pub fn default_timings(geometry: GameGeometry) -> (r: RetroSystemAVInfo)
        ensures
            r.geometry == geometry,
            r.timing.fps_millihertz == 60000,
            r.timing.sample_rate_millihertz == 44100000,
    {
        RetroSystemAVInfo { geometry, timing: Default::default() }
    }

    /// The timing part.
    pub fn timing(&self) -> (r: RetroSystemTiming)
        ensures
            r == self.timing,
    {
        self.timing
    }

    /// Both parts, geometry first.
    pub fn into_inner(self) -> (r: (GameGeometry, RetroSystemTiming))
        ensures
            r.0 == self.geometry,
            r.1 == self.timing,
    {
        (self.geometry, self.timing)
    }
}

} // verus!
