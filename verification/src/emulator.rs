//! Session controller and cycle stepper: owns the machine core's lifecycle
//! (construction, reset, hot-swap, pause/resume) and drives the core to the
//! cycle target implied by each clock reading.
//!
//! The machine core is an external collaborator reached through the
//! [`MachineCore`] capability interface; the host reads the clock (wall clock
//! or the audio device's playback position) and hands each operation the
//! current reading in nanoseconds.

use crate::audio::SampleRingBuffer;
use crate::input::{keymap, Button, KeyCode};
use crate::pacer::Pacer;
use crate::video::{VideoFrameSink, SCREEN_HEIGHT, SCREEN_WIDTH};
use vstd::prelude::*;

verus! {

/// Nominal frequency of the emulated machine's CPU, in hertz.
pub const CPU_FREQUENCY: u64 = 1_789_773;

/// Nanoseconds per emulated CPU cycle, biased up by one so that integer
/// truncation never leaves the pacer perpetually one cycle short.
pub const CPU_CYCLE_TIME_NS: u64 = 1_000_000_000 / CPU_FREQUENCY + 1;

/// The cycle debt still to be worked off: how far the cycle counter lies
/// below the target, or zero once the target is met.
pub open spec fn cycle_debt(emulated_cycles: u64, target_cycles: u64) -> int {
    if emulated_cycles < target_cycles {
        target_cycles - emulated_cycles
    } else {
        0
    }
}

/// Capability interface of the emulated machine core.
///
/// The core's internal CPU/PPU/APU simulation is outside this library: a step
/// may do anything to the sinks and to the core itself, and the library's
/// contracts promise nothing about either. The single obligation on every
/// implementation is that a step consumes at least one cycle.
pub trait MachineCore {
    /// Execute one instruction. Frames and samples completed during the step
    /// are pushed into the two sinks; the returned value is the cycles the
    /// step consumed. Every implementation owes the pacer this much: a step
    /// consumes at least one cycle, so that catching up to a cycle target
    /// always terminates; and a step only feeds the sinks, so the frame
    /// sink's buffer size and palette and the sample buffer's capacity are
    /// fixed at construction, and the sample buffer never grows beyond its
    /// capacity or its prior length, as writing frames and pushing samples
    /// keep all of these.
    fn step(&mut self, video_sink: &mut VideoFrameSink, audio_sink: &mut SampleRingBuffer) -> (
        cycles: u32)
        ensures
            cycles >= 1,
            final(video_sink).pixels@.len() == old(video_sink).pixels@.len(),
            final(video_sink).palette == old(video_sink).palette,
            final(audio_sink).capacity == old(audio_sink).capacity,
            final(audio_sink).samples@.len() <= old(audio_sink).samples@.len()
                || final(audio_sink).samples@.len() <= old(audio_sink).capacity,
    ;

    /// Restore the core's power-on state.
    fn reset(&mut self);

    /// Press or release a controller button.
    fn set_button_pressed(&mut self, button: Button, pressed: bool);
}

/// One emulation session: the machine core, its pacing state, the frame sink
/// and the path of the loaded ROM. All pacing state is written only by the
/// stepping context; the audio playback context touches nothing but the
/// sample buffer handed to `tick`.
pub struct Emulator<C: MachineCore> {
    /// The machine core instance; replaced wholesale by `load_rom`.
    pub core: C,
    /// Epoch, pause state and cycle counters.
    pub pacer: Pacer,
    /// Destination of completed video frames.
    pub video: VideoFrameSink,
    /// Path of the currently loaded ROM image.
    pub rom_path: String,
}

impl<C: MachineCore> Emulator<C> {
    pub open spec fn wf(self) -> bool {
        self.pacer.wf()
    }

    /// `self` with only the pacing state replaced.
    pub open spec fn with_pacer(self, p: Pacer) -> Emulator<C> {
        Emulator { pacer: p, ..self }
    }

    /// A session around a freshly constructed core: epoch at `now_ns`,
    /// counters zero, running, with a zeroed pixel buffer for the machine's
    /// fixed frame size.
    pub fn new(core: C, rom_path: String, palette: Vec<u32>, cycle_period_ns: u64, now_ns: u64) -> (
        e: Emulator<C>)
        requires
            cycle_period_ns >= 1,
        ensures
            e.wf(),
            e.core == core,
            e.rom_path == rom_path,
            e.pacer == (Pacer {
                cycle_period_ns,
                start_time_ns: now_ns,
                paused_time_ns: None::<u64>,
                emulated_cycles: 0u64,
                emulated_instructions: 0u64,
            }),
            e.video.palette == palette,
            e.video.pixels@.len() == 4 * SCREEN_WIDTH * SCREEN_HEIGHT,
            forall|i: int| 0 <= i < e.video.pixels@.len() ==> e.video.pixels@[i] == 0u8,
            !e.video.frame_written,
    {
        Emulator {
            core,
            pacer: Pacer::new(cycle_period_ns, now_ns),
            video: VideoFrameSink::new(palette, SCREEN_WIDTH * SCREEN_HEIGHT),
            rom_path,
        }
    }

    /// Advance the emulation to the cycle target implied by clock reading
    /// `now_ns`: a no-op while paused, otherwise the core is stepped until
    /// `emulated_cycles` meets the target. No upper bound is imposed on the
    /// catch-up work, so a late caller recovers the full elapsed time.
    ///
    /// The cycle counter never decreases, and never exceeds the target by
    /// more than one core step's worth of cycles (a single step reports its
    /// cost as a `u32`).
    #[verifier::loop_isolation(false)]
    pub fn tick(&mut self, now_ns: u64, audio_sink: &mut SampleRingBuffer)
        requires
            old(self).wf(),
            now_ns >= old(self).pacer.start_time_ns,
            old(self).pacer.target_cycles_spec(now_ns) <= u64::MAX - u32::MAX,
        ensures
            final(self).wf(),
            old(self).pacer.is_paused_spec() ==> *final(self) == *old(self) && *final(audio_sink)
                == *old(audio_sink),
            !old(self).pacer.is_paused_spec() ==> ({
                let t = old(self).pacer.target_cycles_spec(now_ns);
                &&& final(self).pacer.cycle_period_ns == old(self).pacer.cycle_period_ns
                &&& final(self).pacer.start_time_ns == old(self).pacer.start_time_ns
                &&& final(self).pacer.paused_time_ns == old(self).pacer.paused_time_ns
                &&& final(self).rom_path == old(self).rom_path
                &&& final(self).pacer.emulated_cycles >= old(self).pacer.emulated_cycles
                &&& final(self).pacer.emulated_cycles >= t
                &&& final(self).pacer.emulated_instructions
                    >= old(self).pacer.emulated_instructions
                &&& final(self).video.pixels@.len() == old(self).video.pixels@.len()
                &&& final(self).video.palette == old(self).video.palette
                &&& final(audio_sink).capacity == old(audio_sink).capacity
                &&& (old(audio_sink).samples@.len() <= old(audio_sink).capacity ==> final(
                    audio_sink).samples@.len() <= old(audio_sink).capacity)
                &&& (old(self).pacer.emulated_cycles >= t ==> {
                    &&& final(self).pacer == old(self).pacer
                    &&& final(self).core == old(self).core
                    &&& final(self).video.palette == old(self).video.palette
                    &&& final(self).video.pixels == old(self).video.pixels
                    &&& !final(self).video.frame_written
                    &&& *final(audio_sink) == *old(audio_sink)
                })
                &&& (old(self).pacer.emulated_cycles < t ==> final(self).pacer.emulated_cycles < t
                    + u32::MAX)
            }),
    {
        if self.pacer.is_paused() {
            return ;
        }
        self.video.begin_batch();

        let target_cycles = self.pacer.target_cycles(now_ns);
        if self.pacer.emulated_cycles >= target_cycles {
            return ;
        }
        while self.pacer.emulated_cycles < target_cycles
            invariant
                self.pacer.wf(),
                self.pacer.cycle_period_ns == old(self).pacer.cycle_period_ns,
                self.pacer.start_time_ns == old(self).pacer.start_time_ns,
                self.pacer.paused_time_ns == old(self).pacer.paused_time_ns,
                self.rom_path == old(self).rom_path,
                self.pacer.emulated_cycles >= old(self).pacer.emulated_cycles,
                self.pacer.emulated_cycles < target_cycles + u32::MAX,
                self.pacer.emulated_instructions >= old(self).pacer.emulated_instructions,
                self.video.pixels@.len() == old(self).video.pixels@.len(),
                self.video.palette == old(self).video.palette,
                audio_sink.capacity == old(audio_sink).capacity,
                audio_sink.samples@.len() <= old(audio_sink).samples@.len()
                    || audio_sink.samples@.len() <= audio_sink.capacity,
            decreases cycle_debt(self.pacer.emulated_cycles, target_cycles),
        {
            let cycles = self.core.step(&mut self.video, audio_sink);
            self.pacer.record_step(cycles);
        }
    }

    /// Suspend stepping, recording that the pause began at reading `now_ns`;
    /// a no-op while already paused.
    pub fn pause_emulation(&mut self, now_ns: u64)
        requires
            old(self).wf(),
            now_ns >= old(self).pacer.start_time_ns,
        ensures
            final(self).wf(),
            *final(self) == old(self).with_pacer(old(self).pacer.pause_spec(now_ns)),
    {
        self.pacer.pause(now_ns);
    }

    /// Resume stepping at reading `now_ns`: the epoch moves forward by the
    /// paused duration, so the paused interval creates no catch-up debt; a
    /// no-op while running.
    pub fn resume_emulation(&mut self, now_ns: u64)
        requires
            old(self).wf(),
            old(self).pacer.paused_time_ns matches Some(t) ==> now_ns >= t,
        ensures
            final(self).wf(),
            *final(self) == old(self).with_pacer(old(self).pacer.resume_spec(now_ns)),
    {
        self.pacer.resume(now_ns);
    }

    /// Pause while running, resume while paused.
    pub fn toggle_paused(&mut self, now_ns: u64)
        requires
            old(self).wf(),
            now_ns >= old(self).pacer.start_time_ns,
            old(self).pacer.paused_time_ns matches Some(t) ==> now_ns >= t,
        ensures
            final(self).wf(),
            old(self).pacer.is_paused_spec() ==> *final(self) == old(self).with_pacer(
                old(self).pacer.resume_spec(now_ns),
            ),
            !old(self).pacer.is_paused_spec() ==> *final(self) == old(self).with_pacer(
                old(self).pacer.pause_spec(now_ns),
            ),
    {
        if self.pacer.is_paused() {
            self.pacer.resume(now_ns);
        } else {
            self.pacer.pause(now_ns);
        }
    }

    pub fn is_paused(&self) -> (r: bool)
        ensures
            r == self.pacer.is_paused_spec(),
    {
        self.pacer.is_paused()
    }

    /// Restore the core's power-on state and start a fresh epoch at `now_ns`:
    /// both counters return to zero and the session is running, regardless of
    /// the prior state.
    pub fn reset(&mut self, now_ns: u64)
        requires
            old(self).wf(),
        ensures
            final(self).wf(),
            final(self).pacer == old(self).pacer.reset_spec(now_ns),
            final(self).video == old(self).video,
            final(self).rom_path == old(self).rom_path,
    {
        self.core.reset();
        self.pacer.reset(now_ns);
    }

    /// Replace the machine core wholesale with one constructed from a newly
    /// loaded ROM image, then start a fresh epoch at `now_ns` exactly as
    /// `reset` does.
    pub fn load_rom(&mut self, core: C, rom_path: String, now_ns: u64)
        requires
            old(self).wf(),
        ensures
            final(self).wf(),
            final(self).core == core,
            final(self).rom_path == rom_path,
            final(self).pacer == old(self).pacer.reset_spec(now_ns),
            final(self).video == old(self).video,
    {
        self.core = core;
        self.rom_path = rom_path;
        self.pacer.reset(now_ns);
    }

    /// The last complete frame, four bytes per pixel.
    pub fn pixels(&self) -> (r: &Vec<u8>)
        ensures
            r == self.video.pixels,
    {
        &self.video.pixels
    }

    pub fn rom_path(&self) -> (r: &String)
        ensures
            r == self.rom_path,
    {
        &self.rom_path
    }

    /// A key went down: press the button the static keymap gives it, if any.
    pub fn key_down(&mut self, key_code: KeyCode)
        ensures
            final(self).pacer == old(self).pacer,
            final(self).video == old(self).video,
            final(self).rom_path == old(self).rom_path,
    {
        self.set_button_pressed(key_code, true);
    }

    /// A key went up: release the button the static keymap gives it, if any.
    pub fn key_up(&mut self, key_code: KeyCode)
        ensures
            final(self).pacer == old(self).pacer,
            final(self).video == old(self).video,
            final(self).rom_path == old(self).rom_path,
    {
        self.set_button_pressed(key_code, false);
    }

    fn set_button_pressed(&mut self, key_code: KeyCode, pressed: bool)
        ensures
            final(self).pacer == old(self).pacer,
            final(self).video == old(self).video,
            final(self).rom_path == old(self).rom_path,
    {
        match keymap(key_code) {
            Some(button) => self.core.set_button_pressed(button, pressed),
            None => (),
        }
    }
}

} // verus!
