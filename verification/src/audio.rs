//! The tone: when the host is to start one, and for how long.

use crate::processor::Cpu;
use crate::TIMER_RATE;
use vstd::prelude::*;

verus! {

/// What the host's tone generator has to remember.
#[derive(Clone, Copy, Debug, PartialEq, Eq, Structural)]
pub struct Audio {
    /// The length of the tone that was started last, in milliseconds.
    pub duration_ms: u64,
    /// Whether a tone is sounding.
    pub playing: bool,
}

/// The milliseconds that a sound timer at `sound_timer` has left: the timer
/// periods in microseconds, cut to whole milliseconds.
pub open spec fn audio_duration(sound_timer: int) -> int {
    sound_timer * TIMER_RATE / 1000
}

impl Audio {
    /// Silence.
    pub fn new() -> (audio: Audio)
        ensures
            audio == (Audio { duration_ms: 0, playing: false }),
    {
        Audio { duration_ms: 0, playing: false }
    }

    /// The milliseconds that the machine's sound timer has left.
    pub fn calc_audio_duration(&self, cpu: &Cpu) -> (millis: u64)
        ensures
            millis == audio_duration(cpu@.sound),
    {
        let sound_timer = cpu.read_sound_timer() as u64;
        let micros_left = sound_timer * TIMER_RATE;
        let millis_left = micros_left / 1000;
        millis_left
    }

    /// Looks at the sound timer. With no tone sounding and the timer
    /// running, a tone is to start: its length in milliseconds is returned
    /// and remembered. With the timer at zero no tone is sounding any more.
    /// Otherwise nothing changes.
    pub fn play(&mut self, cpu: &Cpu) -> (tone: Option<u64>)
        ensures
            final(self).playing == (cpu@.sound > 0),
            !old(self).playing && cpu@.sound > 0 ==> tone == Some(
                audio_duration(cpu@.sound) as u64,
            ) && final(self).duration_ms == audio_duration(cpu@.sound),
            old(self).playing || cpu@.sound == 0 ==> tone is None && final(self).duration_ms
                == old(self).duration_ms,
    {
        let mut tone: Option<u64> = None;
        if !self.playing && cpu.read_sound_timer() > 0 {
            self.duration_ms = self.calc_audio_duration(cpu);
            self.playing = true;
            tone = Some(self.duration_ms);
        }
        if self.playing && cpu.read_sound_timer() == 0 {
            self.playing = false;
        }
        tone
    }
}

} // verus!
