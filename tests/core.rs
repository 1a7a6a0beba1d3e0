use co2_monitor::alert::{
    assess, buzzer_pattern, classify, level_color, maybe_sound, AlertLevel, BuzzerStep, TextColor,
};
use co2_monitor::clock::TickClock;
use co2_monitor::config::{range_minutes, range_span, tick_threshold, RangeSpan, PPM_CEILING};
use co2_monitor::history::{clamp_ppm, RangeHistory};
use co2_monitor::monitor::Monitor;
use co2_monitor::render::{readout_text, row_of, GraphRenderer, PixelOp, GRAPH_LEFT};
use co2_monitor::selector::{BacklightSwitch, RangeSelector};
use co2_monitor::sensor::{
    checksum, decode_checked, decode_ppm, read_command, reading_from, self_calibration_command,
    SensorError,
};

fn ticks(clock: &mut TickClock, n: u32) {
    for _ in 0..n {
        clock.on_tick();
    }
}

#[test]
fn clamp_holds_values_to_band() {
    assert_eq!(PPM_CEILING, 1240);
    assert_eq!(clamp_ppm(0), 400);
    assert_eq!(clamp_ppm(399), 400);
    assert_eq!(clamp_ppm(400), 400);
    assert_eq!(clamp_ppm(823), 823);
    assert_eq!(clamp_ppm(1240), 1240);
    assert_eq!(clamp_ppm(1241), 1240);
    assert_eq!(clamp_ppm(u32::MAX), 1240);
}

#[test]
fn advance_shifts_and_appends() {
    let mut h = RangeHistory::new();
    for k in 0..320u32 {
        h.advance(2, 400 + k);
    }
    let before = h.buffer(2);
    h.advance(2, 5000);
    let after = h.buffer(2);
    assert_eq!(after.len(), 320);
    assert_eq!(after[319], 1240);
    assert_eq!(&after[0..319], &before[1..320]);
    assert_eq!(after[0], 401);
    assert_eq!(h.latest(2), 1240);
    assert_eq!(h.previous(2), 719);
    // other ranges untouched
    assert!(h.buffer(1).iter().all(|&v| v == 400));
    h.advance(0, 12);
    assert_eq!(h.latest(0), 400);
}

#[test]
fn thresholds_follow_range_table() {
    assert_eq!(range_minutes(0), 1);
    assert_eq!(range_minutes(6), 4320);
    assert_eq!(tick_threshold(0), 219);
    assert_eq!(tick_threshold(1), 1098);
    assert_eq!(tick_threshold(3), 13186);
    assert_eq!(tick_threshold(6), 949450);
    assert_eq!(range_span(2), RangeSpan { amount: 30, in_hours: false });
    assert_eq!(range_span(3), RangeSpan { amount: 60, in_hours: false });
    assert_eq!(range_span(4), RangeSpan { amount: 12, in_hours: true });
    assert_eq!(range_span(6), RangeSpan { amount: 72, in_hours: true });
}

#[test]
fn tick_clock_conserves_ticks() {
    let mut c = TickClock::new();
    ticks(&mut c, 100);
    assert_eq!(c.take_and_maybe_reset(0), 0);
    ticks(&mut c, 119);
    assert_eq!(c.counter(0), 219);
    assert_eq!(c.take_and_maybe_reset(0), 0);
    c.on_tick();
    assert_eq!(c.take_and_maybe_reset(0), 220);
    assert_eq!(c.counter(0), 0);
    ticks(&mut c, 5);
    assert_eq!(c.counter(0), 5);
    // range 1 was never reset: it has every tick
    assert_eq!(c.counter(1), 225);
    assert_eq!(c.take_and_maybe_reset(1), 0);
    assert_eq!(c.counter(1), 225);
    for r in 0..7 {
        assert_eq!(c.counter(r) as u64 + if r == 0 { 220 } else { 0 }, 225);
    }
}

#[test]
fn force_advance_fires_next_take() {
    let mut c = TickClock::new();
    c.force_advance(4);
    assert_eq!(c.counter(4), tick_threshold(4) + 1);
    assert_eq!(c.take_and_maybe_reset(4), tick_threshold(4) + 1);
    assert_eq!(c.counter(4), 0);
}

#[test]
fn classify_breakpoints() {
    assert_eq!(classify(0), AlertLevel::Normal);
    assert_eq!(classify(699), AlertLevel::Normal);
    assert_eq!(classify(700), AlertLevel::Warning);
    assert_eq!(classify(999), AlertLevel::Warning);
    assert_eq!(classify(1000), AlertLevel::Critical);
    assert_eq!(classify(u32::MAX), AlertLevel::Critical);
    assert_eq!(level_color(AlertLevel::Normal), TextColor::Green);
    assert_eq!(level_color(AlertLevel::Warning), TextColor::Yellow);
    assert_eq!(level_color(AlertLevel::Critical), TextColor::Red);
}

#[test]
fn sound_only_on_upward_moves_with_display_lit() {

    assert_eq!(maybe_sound(AlertLevel::Warning, AlertLevel::Normal, true), 2);
    assert_eq!(maybe_sound(AlertLevel::Critical, AlertLevel::Normal, true), 3);
    assert_eq!(maybe_sound(AlertLevel::Critical, AlertLevel::Warning, true), 3);
    assert_eq!(maybe_sound(AlertLevel::Warning, AlertLevel::Warning, true), 0);
    assert_eq!(maybe_sound(AlertLevel::Normal, AlertLevel::Warning, true), 0);
    assert_eq!(maybe_sound(AlertLevel::Warning, AlertLevel::Critical, true), 0);
    assert_eq!(maybe_sound(AlertLevel::Critical, AlertLevel::Critical, true), 0);
    assert_eq!(maybe_sound(AlertLevel::Warning, AlertLevel::Normal, false), 0);
    assert_eq!(maybe_sound(AlertLevel::Critical, AlertLevel::Normal, false), 0);
    let a = assess(1200, 999, true);
    assert_eq!(a.level, AlertLevel::Critical);
    assert_eq!(a.color, TextColor::Red);
    assert_eq!(a.beeps, 3);
    assert_eq!(assess(800, 1100, true).beeps, 0);
}

#[test]
fn buzzer_patterns() {
    assert!(buzzer_pattern(0).is_empty());
    let on = BuzzerStep { on: true, hold_ms: 300 };
    assert_eq!(
        buzzer_pattern(2),
        vec![on, BuzzerStep { on: false, hold_ms: 100 }, on, BuzzerStep { on: false, hold_ms: 0 }]
    );
    let three = buzzer_pattern(3);
    assert_eq!(three.len(), 6);
    assert_eq!(three[3], BuzzerStep { on: false, hold_ms: 100 });
    assert_eq!(three[5], BuzzerStep { on: false, hold_ms: 0 });
}

#[test]
fn selector_acts_on_press_edges_only() {
    let mut c = TickClock::new();
    let mut s = RangeSelector::new();
    assert_eq!(s.on_buttons(&mut c, true, false), Some(1));
    for _ in 0..10 {
        assert_eq!(s.on_buttons(&mut c, true, false), None);
    }
    assert_eq!(s.selected(), 1);
    assert_eq!(s.on_buttons(&mut c, false, false), None);
    for _ in 0..20 {
        s.on_buttons(&mut c, true, false);
        s.on_buttons(&mut c, false, false);
    }
    assert_eq!(s.selected(), 6);
    assert_eq!(s.on_buttons(&mut c, false, true), Some(5));
    assert_eq!(s.on_buttons(&mut c, false, true), None);
    for _ in 0..20 {
        s.on_buttons(&mut c, false, false);
        s.on_buttons(&mut c, false, true);
    }
    assert_eq!(s.selected(), 0);
    assert_eq!(s.on_buttons(&mut c, false, false), None);
    assert_eq!(s.on_buttons(&mut c, false, true), None);
    assert_eq!(s.selected(), 0);
}

#[test]
fn selector_forces_refresh_of_new_range() {
    let mut c = TickClock::new();
    let mut s = RangeSelector::new();
    s.on_buttons(&mut c, true, false);
    assert_eq!(c.counter(1), tick_threshold(1) + 1);
    assert_eq!(c.counter(0), 0);
}

#[test]
fn backlight_toggles_on_edges() {
    let mut b = BacklightSwitch::new();
    assert!(b.is_on());
    assert_eq!(b.on_button(true), Some(false));
    assert_eq!(b.on_button(true), None);
    assert!(!b.is_on());
    assert_eq!(b.on_button(false), None);
    assert_eq!(b.on_button(true), Some(true));
    assert!(b.is_on());
}

#[test]
fn sensor_frames() {
    assert_eq!(read_command(), [0xFF, 0x01, 0x86, 0x00, 0x00, 0x00, 0x00, 0x00, 0x79]);
    assert_eq!(self_calibration_command(true), [0xFF, 0x01, 0x79, 0xA0, 0x00, 0x00, 0x00, 0x00, 0xE6]);
    assert_eq!(self_calibration_command(false), [0xFF, 0x01, 0x79, 0x00, 0x00, 0x00, 0x00, 0x00, 0x86]);
    assert_eq!(checksum(&read_command()), 0x79);
    assert_eq!(checksum(&[0xFF, 0x86, 0x01, 0x90, 0, 0, 0, 0, 0]), 0xE9);
}

#[test]
fn reply_decodes_to_400_and_normal_green() {
    let reply = [0xFF, 0x86, 0x00, 0x00, 0x01, 0x90, 0x00, 0x00, 0x00];
    let ppm = decode_ppm(&reply);
    assert_eq!(ppm, 400);
    let a = assess(clamp_ppm(ppm), 400, true);
    assert_eq!(a.level, AlertLevel::Normal);
    assert_eq!(a.color, TextColor::Green);
    // the bytes as listed carry 0x00, 0x01 in positions four and five
    let listed = [0xFF, 0x01, 0x86, 0x00, 0x00, 0x01, 0x90, 0x00, 0x00];
    assert_eq!(decode_ppm(&listed), 1);
    assert_eq!(clamp_ppm(decode_ppm(&listed)), 400);
    assert_eq!(classify(clamp_ppm(decode_ppm(&listed))), AlertLevel::Normal);
}

#[test]
fn reading_errors() {
    assert_eq!(reading_from(None), Err(SensorError::Timeout));
    assert_eq!(reading_from(Some([0xFF, 0x86, 0, 0, 0x03, 0x20, 0, 0, 0])), Ok(800));
    let mut good = [0xFF, 0x86, 0x00, 0x00, 0x01, 0x90, 0x00, 0x00, 0x00];
    good[8] = checksum(&good);
    assert_eq!(decode_checked(&good), Ok(400));
    let bad = [0xFF, 0x86, 0x00, 0x00, 0x01, 0x90, 0x00, 0x00, 0x00];
    assert_eq!(decode_checked(&bad), Err(SensorError::Malformed));
}

#[test]
fn readout_text_pads_to_four_places() {
    assert_eq!(readout_text(7), b"CO2:   7ppm".to_vec());
    assert_eq!(readout_text(42), b"CO2:  42ppm".to_vec());
    assert_eq!(readout_text(400), b"CO2: 400ppm".to_vec());
    assert_eq!(readout_text(1240), b"CO2:1240ppm".to_vec());
    assert_eq!(readout_text(0), b"CO2:   0ppm".to_vec());
    assert_eq!(readout_text(4294967295), b"CO2:4294967295ppm".to_vec());
}

#[test]
fn rows_map_ppm_to_pixels() {
    assert_eq!(row_of(400), 230);
    assert_eq!(row_of(406), 229);
    assert_eq!(row_of(411), 229);
    assert_eq!(row_of(1000), 130);
    assert_eq!(row_of(1240), 90);
    assert_eq!(row_of(0), 296);
}

#[test]
fn render_erases_old_then_draws_new() {
    let mut g = GraphRenderer::new();
    let curve = [700u32; 320];
    let ops = g.render(&curve);
    assert_eq!(ops.len(), 2 * (320 - GRAPH_LEFT));
    assert_eq!(ops[0], PixelOp { x: 47, y: 296, lit: false });
    assert_eq!(ops[1], PixelOp { x: 47, y: 180, lit: true });
    assert_eq!(g.displayed(), curve);
    let mut next = curve;
    next[319] = 1000;
    let ops = g.render(&next);
    let n = ops.len();
    assert_eq!(ops[n - 2], PixelOp { x: 319, y: 180, lit: false });
    assert_eq!(ops[n - 1], PixelOp { x: 319, y: 130, lit: true });
}

#[test]
fn warning_transition_beeps_twice_in_yellow() {
    let mut c = TickClock::new();
    let mut m = Monitor::new();
    ticks(&mut c, 220);
    let r = m.process_reading(&mut c, 650).unwrap();
    assert_eq!(r.alert.beeps, 0);
    assert_eq!(r.alert.color, TextColor::Green);
    ticks(&mut c, 220);
    let r = m.process_reading(&mut c, 750).unwrap();
    assert_eq!(r.alert.level, AlertLevel::Warning);
    assert_eq!(r.alert.beeps, 2);
    assert_eq!(buzzer_pattern(r.alert.beeps).iter().filter(|s| s.on).count(), 2);
    assert_eq!(r.alert.color, TextColor::Yellow);
    assert_eq!(r.readout, b"CO2: 750ppm".to_vec());
    ticks(&mut c, 220);
    let r = m.process_reading(&mut c, 760).unwrap();
    assert_eq!(r.alert.beeps, 0);
    // no redraw before the threshold is crossed again
    assert!(m.process_reading(&mut c, 800).is_none());
}

#[test]
fn coarser_range_redraws_at_once() {
    let mut c = TickClock::new();
    let mut m = Monitor::new();
    // feed range 1 without it being selected
    for k in 0..3u32 {
        ticks(&mut c, 1099);
        let _ = m.process_reading(&mut c, 500 + k);
    }
    assert_eq!(m.history.latest(1), 502);
    let scan = m.on_buttons(&mut c, false, true, false);
    assert_eq!(scan.range, Some(1));
    assert_eq!(m.selector.selected(), 1);
    let r = m.process_reading(&mut c, 900).expect("selected range redraws");
    let buf = m.history.buffer(1);
    assert_eq!(buf[319], 900);
    assert_eq!(buf[318], 502);
    assert_eq!(m.renderer.displayed(), buf);
    assert_eq!(r.pixels[r.pixels.len() - 1], PixelOp { x: 319, y: row_of(900), lit: true });
    assert_eq!(r.alert.level, AlertLevel::Warning);
}

#[test]
fn dark_display_silences_alerts() {
    let mut c = TickClock::new();
    let mut m = Monitor::new();
    let scan = m.on_buttons(&mut c, true, false, false);
    assert_eq!(scan.backlight, Some(false));
    ticks(&mut c, 220);
    let r = m.process_reading(&mut c, 1500).unwrap();
    assert_eq!(r.alert.level, AlertLevel::Critical);
    assert_eq!(r.alert.beeps, 0);
}
