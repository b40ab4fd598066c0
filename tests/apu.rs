use nsf_player::apu::Apu;
use nsf_player::frame_sequencer::{FrameSequencer, FrameTick};
use nsf_player::mixer::{Mixer, MIX_FULL_SCALE};
use nsf_player::sample_pump::{SamplePump, CPU_CLOCK_NTSC};

#[test]
fn mixer_silence_is_zero() {
    let m = Mixer::new();
    assert_eq!(m.mix(0, 0, 0, 0), 0);
}

#[test]
fn mixer_output_stays_in_range() {
    let m = Mixer::new();
    for a in 0..16u8 {
        for b in 0..16u8 {
            for t in 0..16u8 {
                for n in 0..16u8 {
                    assert!(m.mix(a, b, t, n) <= MIX_FULL_SCALE);
                }
            }
        }
    }
}

#[test]
fn mixer_exact_values() {
    let m = Mixer::new();
    assert_eq!(m.mix(15, 15, 0, 0), 257512);
    assert_eq!(m.mix(0, 0, 15, 15), 385662);
    assert_eq!(m.mix(1, 0, 1, 0), 11609 + 19936);
    assert_eq!(m.mix(15, 15, 15, 15), 257512 + 385662);
}

#[test]
fn frame_sequencer_four_step_schedule() {
    let mut f = FrameSequencer::new();
    let mut quarters = Vec::new();
    let mut halves = Vec::new();
    for c in 1..=29830u32 {
        match f.clock() {
            FrameTick::Quarter => quarters.push(c),
            FrameTick::Half => halves.push(c),
            FrameTick::Idle => {}
        }
    }
    assert_eq!(quarters, vec![7457, 22371]);
    assert_eq!(halves, vec![14913, 29829]);
    assert_eq!(f.cycle, 0);
}

#[test]
fn frame_sequencer_five_step_schedule() {
    let mut f = FrameSequencer::new();
    f.set_mode(true);
    let mut ticks = Vec::new();
    for c in 1..=37282u32 {
        let t = f.clock();
        if t != FrameTick::Idle {
            ticks.push((c, t));
        }
    }
    assert_eq!(
        ticks,
        vec![
            (7457, FrameTick::Quarter),
            (14913, FrameTick::Half),
            (22371, FrameTick::Quarter),
            (37281, FrameTick::Half),
        ]
    );
    assert_eq!(f.cycle, 0);
}

#[test]
fn sample_pump_averages_each_window() {
    let mut p = SamplePump::new(4, 1);
    for m in [0u32, 1_000_000, 1_000_000, 0, 500_000, 500_000, 500_000, 500_000] {
        p.push(m);
    }
    assert_eq!(p.available(), 2);
    let s = p.take_samples(10);
    assert_eq!(s, vec![16383, 16383]);
    assert_eq!(p.available(), 0);
}

#[test]
fn take_samples_keeps_the_rest() {
    let mut p = SamplePump::new(2, 1);
    for m in [0u32, 0, 1_000_000, 1_000_000, 0, 0] {
        p.push(m);
    }
    assert_eq!(p.take_samples(2), vec![0, 32767]);
    assert_eq!(p.take_samples(2), vec![0]);
    assert!(p.take_samples(2).is_empty());
}

#[test]
fn apu_emits_samples_at_the_audio_rate() {
    let mut apu = Apu::new(44_100);
    for _ in 0..178_977u32 {
        apu.clock_cpu_cycle();
    }
    let s = apu.take_samples(100_000);
    assert_eq!(s.len(), 4409);
    assert!(s.iter().all(|&x| x == 0));
    assert_eq!(CPU_CLOCK_NTSC, 1_789_773);
}

#[test]
fn apu_status_follows_length_counters() {
    let mut apu = Apu::new(44_100);
    assert_eq!(apu.read_status(), 0);
    apu.write_register(0x4003, 0x08);
    assert_eq!(apu.read_status(), 0);
    apu.write_register(0x4015, 0x0F);
    apu.write_register(0x4003, 0x08);
    apu.write_register(0x4007, 0x08);
    apu.write_register(0x400B, 0x08);
    apu.write_register(0x400F, 0x08);
    assert_eq!(apu.read_status(), 0x0F);
    apu.write_register(0x4015, 0x05);
    assert_eq!(apu.read_status(), 0x05);
    assert_eq!(apu.pulse_b.length_counter.counter, 0);
    assert_eq!(apu.noise.length_counter.counter, 0);
}

#[test]
fn apu_register_map_reaches_each_channel() {
    let mut apu = Apu::new(44_100);
    apu.write_register(0x4006, 0x34);
    apu.write_register(0x4007, 0x02);
    assert_eq!(apu.pulse_b.timer_period, 0x234);
    apu.write_register(0x4004, 0x40);
    assert_eq!(apu.pulse_b.duty_cycle, 1);
    apu.write_register(0x400A, 0x56);
    apu.write_register(0x400B, 0x01);
    assert_eq!(apu.triangle.timer_period, 0x156);
    assert!(apu.triangle.linear_counter.reload);
    apu.write_register(0x400E, 0x83);
    assert!(apu.noise.mode);
    assert_eq!(apu.noise.period, 32);
    apu.write_register(0x4017, 0x80);
    assert!(apu.frame_sequencer.five_step);
    apu.write_register(0x4009, 0xFF);
    apu.write_register(0x4010, 0xFF);
    assert_eq!(apu.pulse_a.timer_period, 0);
}

#[test]
fn apu_plays_a_pulse_tone() {
    let mut apu = Apu::new(44_100);
    apu.write_register(0x4015, 0x01);
    apu.write_register(0x4000, 0xBF); // duty 2, halt, constant volume 15
    apu.write_register(0x4001, 0x01); // sweep off, shift 1
    apu.write_register(0x4002, 0xFD);
    apu.write_register(0x4003, 0x00); // period 0xFD: about 440 Hz
    for _ in 0..17_898u32 {
        apu.clock_cpu_cycle();
    }
    let s = apu.take_samples(1000);
    assert_eq!(s.len(), 441);
    assert!(s.iter().any(|&x| x > 0));
    assert!(s.iter().any(|&x| x == 0));
    assert!(s.iter().all(|&x| x >= 0));
}

#[test]
fn apu_reset_returns_to_power_on() {
    let mut apu = Apu::new(44_100);
    apu.write_register(0x4015, 0x0F);
    apu.write_register(0x4003, 0x08);
    for _ in 0..100 {
        apu.clock_cpu_cycle();
    }
    apu.reset();
    assert_eq!(apu.read_status(), 0);
    assert_eq!(apu.noise.shift_register, 1);
    assert!(apu.pulse_a.envelope.start);
    assert!(apu.pulse_a.sweep.reload);
    assert_eq!(apu.frame_sequencer.cycle, 0);
}
