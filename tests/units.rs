use nsf_player::counters::{length_lookup, LengthCounter, LinearCounter};
use nsf_player::envelope::Envelope;
use nsf_player::noise::Noise;
use nsf_player::pulse::Pulse;
use nsf_player::sweep::Sweep;
use nsf_player::triangle::Triangle;

#[test]
fn envelope_decays_one_step_per_divider_underflow() {
    let mut e = Envelope::new();
    e.configure(false, 3, false);
    e.restart();
    e.clock_quarter_frame();
    assert_eq!(e.decay, 15);
    assert_eq!(e.divider, 3);
    for underflow in 1..=15u8 {
        for _ in 0..3 {
            e.clock_quarter_frame();
            assert_eq!(e.decay, 16 - underflow);
        }
        e.clock_quarter_frame();
        assert_eq!(e.decay, 15 - underflow);
        assert_eq!(e.level(), 15 - underflow);
    }
    for _ in 0..40 {
        e.clock_quarter_frame();
        assert_eq!(e.decay, 0);
    }
}

#[test]
fn envelope_with_period_zero_underflows_every_tick() {
    let mut e = Envelope::new();
    e.configure(false, 0, false);
    e.clock_quarter_frame();
    assert_eq!(e.decay, 15);
    for k in 1..=15u8 {
        e.clock_quarter_frame();
        assert_eq!(e.decay, 15 - k);
    }
    e.clock_quarter_frame();
    assert_eq!(e.decay, 0);
}

#[test]
fn envelope_loop_wraps_to_fifteen() {
    let mut e = Envelope::new();
    e.configure(false, 0, true);
    for _ in 0..16 {
        e.clock_quarter_frame();
    }
    assert_eq!(e.decay, 0);
    e.clock_quarter_frame();
    assert_eq!(e.decay, 15);
}

#[test]
fn envelope_constant_volume_and_masking() {
    let mut e = Envelope::new();
    e.configure(true, 0x1B, false);
    assert_eq!(e.volume_or_period, 0x0B);
    assert_eq!(e.level(), 0x0B);
}

#[test]
fn lfsr_long_mode_period_is_32767() {
    let mut n = Noise::new();
    assert_eq!(n.shift_register, 1);
    for step in 1..32767u32 {
        n.clock_shift_register();
        assert_ne!(n.shift_register, 0);
        assert_ne!(n.shift_register, 1, "returned early at step {}", step);
    }
    n.clock_shift_register();
    assert_eq!(n.shift_register, 1);
}

#[test]
fn lfsr_short_mode_has_shorter_cycle() {
    let mut n = Noise::new();
    n.write_period(0x80);
    assert!(n.mode);
    let mut steps: u32 = 0;
    loop {
        n.clock_shift_register();
        steps += 1;
        assert_ne!(n.shift_register, 0);
        if n.shift_register == 1 {
            break;
        }
        assert!(steps < 32767);
    }
    assert_eq!(steps, 93);
}

#[test]
fn length_counter_code_zero_runs_ten_half_frames() {
    assert_eq!(length_lookup(0), 10);
    let mut p = Pulse::new(false);
    p.set_enabled(true);
    p.write_control(0x9F); // duty 2, no halt, constant volume 15
    p.write_sweep(0x01);
    p.write_timer_low(0x00);
    p.write_timer_high(0x01); // length code 0, period 0x100
    assert_eq!(p.length_counter.counter, 10);
    // step 1 of duty 2 is high
    p.sequencer_step = 1;
    assert_eq!(p.current_level(), 15);
    for tick in 1..=10u8 {
        p.clock_half_frame();
        assert_eq!(p.length_counter.counter, 10 - tick);
        if tick < 10 {
            assert_eq!(p.current_level(), 15);
        }
    }
    assert_eq!(p.current_level(), 0);
    for _ in 0..5 {
        p.clock_half_frame();
        assert_eq!(p.length_counter.counter, 0);
        assert_eq!(p.current_level(), 0);
    }
}

#[test]
fn halted_length_counter_never_decrements() {
    let mut c = LengthCounter::new();
    c.set_enabled(true);
    c.load(0);
    c.set_halt(true);
    for _ in 0..100 {
        c.clock_half_frame();
    }
    assert_eq!(c.counter, 10);
}

#[test]
fn length_load_ignored_while_disabled_and_cleared_on_disable() {
    let mut c = LengthCounter::new();
    c.load(1);
    assert_eq!(c.counter, 0);
    c.set_enabled(true);
    c.load(1);
    assert_eq!(c.counter, 254);
    c.load(33); // masked to code 1
    assert_eq!(c.counter, 254);
    c.set_enabled(false);
    assert_eq!(c.counter, 0);
    assert!(!c.is_active());
}

#[test]
fn linear_counter_reload_and_control() {
    let mut l = LinearCounter::new();
    l.configure(false, 0xFF);
    assert_eq!(l.reload_value, 0x7F);
    l.configure(false, 5);
    l.request_reload();
    l.clock_quarter_frame();
    assert_eq!(l.counter, 5);
    assert!(!l.reload);
    l.clock_quarter_frame();
    assert_eq!(l.counter, 4);
    l.configure(true, 5);
    l.request_reload();
    l.clock_quarter_frame();
    l.clock_quarter_frame();
    assert_eq!(l.counter, 5);
    assert!(l.reload);
}

#[test]
fn sweep_targets_and_muting() {
    let mut s = Sweep::new(false);
    s.configure(true, 0, false, 1);
    assert!(!s.is_muting(0x100));
    assert_eq!(s.clock_half_frame(0x100), 0x180);
    // target above 0x7FF mutes and leaves the period alone
    assert!(s.is_muting(0x600));
    s.configure(true, 0, false, 1);
    assert_eq!(s.clock_half_frame(0x600), 0x600);
    // negate: two's complement versus one's complement
    let mut a = Sweep::new(false);
    a.configure(true, 0, true, 1);
    assert_eq!(a.clock_half_frame(0x100), 0x80);
    let mut b = Sweep::new(true);
    b.configure(true, 0, true, 1);
    assert_eq!(b.clock_half_frame(0x100), 0x7F);
    // shift count 0 mutes
    let mut z = Sweep::new(false);
    z.configure(true, 0, false, 0);
    assert!(z.is_muting(0x100));
}

#[test]
fn sweep_divider_reloads_and_counts_down() {
    let mut s = Sweep::new(false);
    s.configure(true, 2, false, 1);
    assert_eq!(s.clock_half_frame(0x100), 0x180);
    assert_eq!(s.divider, 2);
    assert!(!s.reload);
    assert_eq!(s.clock_half_frame(0x100), 0x100);
    assert_eq!(s.divider, 1);
    assert_eq!(s.clock_half_frame(0x100), 0x100);
    assert_eq!(s.divider, 0);
    assert_eq!(s.clock_half_frame(0x100), 0x180);
    assert_eq!(s.divider, 2);
}

#[test]
fn pulse_timer_runs_at_half_cpu_rate() {
    let mut p = Pulse::new(false);
    p.write_timer_low(0x10);
    p.write_timer_high(0x00);
    assert_eq!(p.timer_period, 0x10);
    // timer 0: first clock on the second CPU cycle reloads and advances
    p.clock_cpu_cycle();
    assert_eq!(p.sequencer_step, 0);
    p.clock_cpu_cycle();
    assert_eq!(p.sequencer_step, 1);
    assert_eq!(p.timer, 0x10);
    for _ in 0..(2 * 0x10) {
        p.clock_cpu_cycle();
    }
    assert_eq!(p.timer, 0);
    assert_eq!(p.sequencer_step, 1);
    p.clock_cpu_cycle();
    p.clock_cpu_cycle();
    assert_eq!(p.sequencer_step, 2);
}

#[test]
fn pulse_register_fields_are_masked() {
    let mut p = Pulse::new(false);
    p.write_timer_low(0xFF);
    p.write_timer_high(0xFF);
    assert_eq!(p.timer_period, 0x7FF);
    p.write_control(0xC0);
    assert_eq!(p.duty_cycle, 3);
    p.write_sweep(0xFF);
    assert_eq!(p.sweep.divider_period, 7);
    assert_eq!(p.sweep.shift_count, 7);
    assert!(p.sweep.negate);
    assert!(p.sweep.enabled);
}

#[test]
fn pulse_below_period_eight_is_silent() {
    let mut p = Pulse::new(false);
    p.set_enabled(true);
    p.write_control(0xBF);
    p.write_sweep(0x01);
    p.write_timer_low(0x07);
    p.write_timer_high(0x08);
    p.sequencer_step = 2;
    assert_eq!(p.current_level(), 0);
    p.write_timer_low(0x08);
    p.sequencer_step = 2;
    assert_eq!(p.current_level(), 15);
}

#[test]
fn triangle_ramp_and_gating() {
    let mut t = Triangle::new();
    t.set_enabled(true);
    t.write_linear(0x7F);
    t.write_timer_low(0);
    t.write_timer_high(0x08);
    // gate closed until the linear counter is loaded
    t.clock_cpu_cycle();
    t.clock_cpu_cycle();
    assert_eq!(t.sequencer_step, 0);
    t.clock_quarter_frame();
    assert_eq!(t.linear_counter.counter, 0x7F);
    let mut levels = Vec::new();
    for _ in 0..32 {
        levels.push(t.current_level());
        t.clock_cpu_cycle();
        t.clock_cpu_cycle();
    }
    let expected: Vec<u8> = (0..16).chain((0..16).rev()).collect();
    assert_eq!(levels, expected);
    assert_eq!(t.sequencer_step, 0);
}

#[test]
fn noise_period_register_and_output() {
    let mut n = Noise::new();
    n.set_enabled(true);
    n.write_period(0x0F);
    assert_eq!(n.period, 4068);
    assert!(!n.mode);
    n.write_control(0x1F);
    n.write_length(0x08);
    assert_eq!(n.length_counter.counter, 254);
    // bit 0 of the register set: silent
    assert_eq!(n.current_level(), 0);
    n.clock_shift_register();
    assert_eq!(n.shift_register, 0x4000);
    assert_eq!(n.current_level(), 15);
}
