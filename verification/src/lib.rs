//! Real-time pacing layer for an interactive emulator front-end.
//!
//! The library converts monotonic clock readings (nanoseconds) into a target
//! count of emulated processor cycles, drives an external machine core forward
//! to meet that target, and routes the core's two real-time outputs — a video
//! frame and an audio sample stream — to presentation and playback sinks.
//!
//! The machine core itself (the CPU/PPU/APU simulation), ROM file parsing,
//! the GUI and the audio device are external collaborators: the core is
//! reached through the [`emulator::MachineCore`] capability interface, and the
//! host hands each operation the current clock reading.

pub mod audio;
pub mod emulator;
pub mod input;
pub mod pacer;
pub mod video;

pub use audio::SampleRingBuffer;
pub use emulator::{Emulator, MachineCore, CPU_CYCLE_TIME_NS, CPU_FREQUENCY};
pub use input::{keymap, Button, KeyCode};
pub use pacer::Pacer;
pub use video::{VideoFrameSink, FRAME_ALPHA, SCREEN_HEIGHT, SCREEN_WIDTH};
