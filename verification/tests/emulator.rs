use rustednes_cosmic::audio::SampleRingBuffer;
use rustednes_cosmic::emulator::{Emulator, MachineCore};
use rustednes_cosmic::input::{Button, KeyCode};
use rustednes_cosmic::video::{VideoFrameSink, SCREEN_HEIGHT, SCREEN_WIDTH};

/// A scripted machine core: every step costs `step_cost` cycles and can push
/// one sample and one single-index frame into the sinks.
struct ScriptedCore {
    step_cost: u32,
    steps: u32,
    resets: u32,
    presses: Vec<(Button, bool)>,
    emit_frame_index: Option<u8>,
    emit_sample: Option<u32>,
}

impl ScriptedCore {
    fn with_cost(step_cost: u32) -> ScriptedCore {
        ScriptedCore {
            step_cost,
            steps: 0,
            resets: 0,
            presses: Vec::new(),
            emit_frame_index: None,
            emit_sample: None,
        }
    }
}

impl MachineCore for ScriptedCore {
    fn step(&mut self, video_sink: &mut VideoFrameSink, audio_sink: &mut SampleRingBuffer) -> u32 {
        self.steps += 1;
        if let Some(index) = self.emit_frame_index {
            video_sink.write_frame(&vec![index; SCREEN_WIDTH * SCREEN_HEIGHT]);
        }
        if let Some(sample) = self.emit_sample {
            audio_sink.on_sample(sample);
        }
        self.step_cost
    }

    fn reset(&mut self) {
        self.resets += 1;
    }

    fn set_button_pressed(&mut self, button: Button, pressed: bool) {
        self.presses.push((button, pressed));
    }
}

fn session(step_cost: u32, cycle_period_ns: u64, now_ns: u64) -> Emulator<ScriptedCore> {
    Emulator::new(
        ScriptedCore::with_cost(step_cost),
        String::from("game.nes"),
        vec![0x00112233; 64],
        cycle_period_ns,
        now_ns,
    )
}

#[test]
fn advance_catches_up_to_target() {
    // With a 1000 ns cycle period and the epoch at 0, one advance at reading
    // 5000 steps the core until at least 5 cycles have been executed.
    let mut audio = SampleRingBuffer::new(16);
    let mut em = session(2, 1000, 0);
    em.tick(5000, &mut audio);
    assert!(em.pacer.emulated_cycles >= 5);
    assert_eq!(em.pacer.emulated_cycles, 6);
    assert_eq!(em.core.steps, 3);
    assert_eq!(em.pacer.emulated_instructions, 3);
}

#[test]
fn advance_is_monotonic_and_overshoots_at_most_one_step() {
    let mut audio = SampleRingBuffer::new(16);
    let mut em = session(3, 1, 0);
    let mut previous = 0;
    for now in [1000u64, 2500, 2500, 4000] {
        em.tick(now, &mut audio);
        let cycles = em.pacer.emulated_cycles;
        assert!(cycles >= previous);
        assert!(cycles >= now);
        assert!(cycles < now + 3);
        previous = cycles;
    }
}

#[test]
fn advance_while_paused_does_nothing() {
    let mut audio = SampleRingBuffer::new(16);
    let mut em = session(2, 1000, 0);
    em.pause_emulation(100);
    em.tick(50_000, &mut audio);
    assert_eq!(em.core.steps, 0);
    assert_eq!(em.pacer.emulated_cycles, 0);
    assert!(em.is_paused());
}

#[test]
fn pause_resume_creates_no_catchup_debt() {
    // Pause at 100 and resume at 1100: an advance at 1200 sees an effective
    // elapsed time of 200 ns, so with a 100 ns period it runs 2 cycles, not 12.
    let mut audio = SampleRingBuffer::new(16);
    let mut em = session(1, 100, 0);
    em.pause_emulation(100);
    em.resume_emulation(1100);
    assert_eq!(em.pacer.start_time_ns, 1000);
    em.tick(1200, &mut audio);
    assert_eq!(em.pacer.emulated_cycles, 2);
    assert_eq!(em.core.steps, 2);
}

#[test]
fn toggle_paused_flips_state() {
    let mut em = session(1, 1000, 0);
    assert!(!em.is_paused());
    em.toggle_paused(10);
    assert!(em.is_paused());
    em.toggle_paused(20);
    assert!(!em.is_paused());
    assert_eq!(em.pacer.start_time_ns, 10);
}

#[test]
fn reset_restores_power_on_pacing() {
    let mut audio = SampleRingBuffer::new(16);
    let mut em = session(2, 1000, 0);
    em.tick(5000, &mut audio);
    em.pause_emulation(6000);
    em.reset(9000);
    assert_eq!(em.core.resets, 1);
    assert_eq!(em.pacer.start_time_ns, 9000);
    assert_eq!(em.pacer.emulated_cycles, 0);
    assert_eq!(em.pacer.emulated_instructions, 0);
    assert!(!em.is_paused());
}

#[test]
fn load_rom_replaces_core_and_resets_pacing() {
    let mut audio = SampleRingBuffer::new(16);
    let mut em = session(2, 1000, 0);
    em.tick(5000, &mut audio);
    em.load_rom(ScriptedCore::with_cost(7), String::from("other.nes"), 8000);
    assert_eq!(em.rom_path(), "other.nes");
    assert_eq!(em.pacer.start_time_ns, 8000);
    assert_eq!(em.pacer.emulated_cycles, 0);
    assert_eq!(em.core.steps, 0);
    em.tick(9000, &mut audio);
    assert_eq!(em.core.steps, 1);
    assert_eq!(em.pacer.emulated_cycles, 7);
}

#[test]
fn key_events_drive_mapped_buttons() {
    let mut em = session(1, 1000, 0);
    em.key_down(KeyCode::KeyX);
    em.key_up(KeyCode::ArrowLeft);
    em.key_down(KeyCode::Other);
    assert_eq!(
        em.core.presses,
        vec![(Button::A, true), (Button::Left, false)]
    );
}

#[test]
fn pixel_buffer_has_machine_frame_size() {
    let em = session(1, 1000, 0);
    assert_eq!(em.pixels().len(), SCREEN_WIDTH * SCREEN_HEIGHT * 4);
    assert!(em.pixels().iter().all(|&b| b == 0));
    assert_eq!(em.rom_path(), "game.nes");
}

#[test]
fn stepping_routes_frames_and_samples_to_sinks() {
    let mut audio = SampleRingBuffer::new(4);
    let mut em = session(2, 1000, 0);
    em.core.emit_frame_index = Some(0);
    em.core.emit_sample = Some(0.75f32.to_bits());
    em.tick(2000, &mut audio);
    assert!(em.video.frame_written());
    // Palette entry 0x00112233 expands to the three color bytes and alpha.
    assert_eq!(&em.pixels()[0..4], &[0x11, 0x22, 0x33, 0x77]);
    assert_eq!(f32::from_bits(audio.pull_sample_or(0)), 0.75);
}
