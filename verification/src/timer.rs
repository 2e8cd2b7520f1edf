//! Delay and sound countdown counters, decremented once per video frame and
//! floored at zero.
//!
//! The observed update rule ties the sound counter to the freshly
//! decremented delay counter instead of counting it down on its own; on real
//! hardware the two counters are independent. Both behaviours are offered
//! behind a switch, and the coupled rule is the default for fidelity with
//! the observed machine. The audio waveform generator itself works on
//! floating-point samples and lives with the host, which reads `sound()`
//! to gate its tone.

use vstd::prelude::*;

verus! {

/// Samples per second of the audio the host generates.
pub const SAMPLE_FREQUENCY: usize = 44100;

/// Samples in one video frame's worth of audio, at 60 frames per second.
pub const AUDIO_BUFFER_SIZE: usize = SAMPLE_FREQUENCY / 60;

/// The two 8-bit-range countdown counters.
pub struct Timer {
    delay: i32,
    sound: i32,
    independent_sound: bool,
}

impl Timer {
    /// The delay counter.
    pub closed spec fn spec_delay(&self) -> int {
        self.delay as int
    }

    /// The sound counter.
    pub closed spec fn spec_sound(&self) -> int {
        self.sound as int
    }

    /// Whether the sound counter counts down on its own rather than being
    /// tied to the delay counter.
    pub closed spec fn spec_independent_sound(&self) -> bool {
        self.independent_sound
    }

    /// Both counters stay in the 8-bit range; they never go below zero.
    pub open spec fn wf(&self) -> bool {
        0 <= self.spec_delay() <= 255 && 0 <= self.spec_sound() <= 255
    }

    /// A counter after one frame: down by one, floored at zero.
    pub open spec fn spec_tick(value: int) -> int {
        if value > 0 {
            value - 1
        } else {
            0
        }
    }

    /// Creates a timer with both counters at zero and the observed coupled
    /// update rule selected.
    pub fn new() -> (t: Timer)
        ensures
            t.wf(),
            t.spec_delay() == 0,
            t.spec_sound() == 0,
            !t.spec_independent_sound(),
    {
        Timer { delay: 0, sound: 0, independent_sound: false }
    }

    /// Selects between the observed coupled update rule (`false`, the
    /// default) and independent countdown of the sound counter (`true`).
    pub fn set_independent_sound(&mut self, independent: bool)
        requires
            old(self).wf(),
        ensures
            final(self).wf(),
            final(self).spec_independent_sound() == independent,
            final(self).spec_delay() == old(self).spec_delay(),
            final(self).spec_sound() == old(self).spec_sound(),
    {
        self.independent_sound = independent;
    }

    /// The delay counter, read by LD Vx,DT.
    pub fn delay(&self) -> (r: i32)
        ensures
            r == self.spec_delay(),
    {
        self.delay
    }

    /// The sound counter; the host gates its tone on this being positive.
    pub fn sound(&self) -> (r: i32)
        ensures
            r == self.spec_sound(),
    {
        self.sound
    }

    /// Sets the delay counter, written by LD DT,Vx from an 8-bit register.
    pub fn set_delay(&mut self, value: i32)
        requires
            old(self).wf(),
            0 <= value <= 255,
        ensures
            final(self).wf(),
            final(self).spec_delay() == value,
            final(self).spec_sound() == old(self).spec_sound(),
            final(self).spec_independent_sound() == old(self).spec_independent_sound(),
    {
        self.delay = value;
    }

    /// Sets the sound counter, written by LD ST,Vx from an 8-bit register.
    pub fn set_sound(&mut self, value: i32)
        requires
            old(self).wf(),
            0 <= value <= 255,
        ensures
            final(self).wf(),
            final(self).spec_sound() == value,
            final(self).spec_delay() == old(self).spec_delay(),
            final(self).spec_independent_sound() == old(self).spec_independent_sound(),
    {
        self.sound = value;
    }

    /// One frame's countdown. The delay counter goes down by one, floored at
    /// zero, so repeated updates never drive it below zero. Under the
    /// observed coupled rule the sound counter is then set to the
    /// decremented delay value; under the independent rule it counts down by
    /// itself with the same floor.
    pub fn update(&mut self)
        requires
            old(self).wf(),
        ensures
            final(self).wf(),
            final(self).spec_delay() == Self::spec_tick(old(self).spec_delay()),
            final(self).spec_delay() >= 0,
            final(self).spec_sound() == if old(self).spec_independent_sound() {
                Self::spec_tick(old(self).spec_sound())
            } else {
                Self::spec_tick(old(self).spec_delay())
            },
            final(self).spec_independent_sound() == old(self).spec_independent_sound(),
    {
        let delay = if self.delay > 0 {
            self.delay - 1
        } else {
            0
        };
        self.delay = delay;
        if self.independent_sound {
            self.sound = if self.sound > 0 {
                self.sound - 1
            } else {
                0
            };
        } else {
            self.sound = delay;
        }
    }
}

} // verus!
