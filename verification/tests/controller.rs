use log_o_matic::controller::{fast_forward, tick, ControllerConfig};

fn fresh(start: i64, target: i64) -> ControllerConfig {
    ControllerConfig { start, target, age_offset: 0, resume: false }
}

fn resumed(start: i64, target: i64, age_offset: i64) -> ControllerConfig {
    ControllerConfig { start, target, age_offset, resume: true }
}

#[test]
fn draw_regime_boundary_at_age_50() {
    let cfg = fresh(0, 1000);
    // at age 49 the fire is still building
    let young = tick(&cfg, 49);
    assert_eq!(young.params.age, 49);
    assert_eq!(young.params.draw, 50);
    // at age 50 with plenty of time remaining the draw settles to steady
    let settled = tick(&cfg, 50);
    assert_eq!(settled.params.age, 50);
    assert!(settled.params.remaining >= 30);
    assert_eq!(settled.params.draw, 33);
}

#[test]
fn draw_minimum_near_the_deadline() {
    // age past 50, less than 30 minutes remaining
    let late_fresh = tick(&fresh(0, 80), 60);
    assert_eq!(late_fresh.params.remaining, 20);
    assert_eq!(late_fresh.params.draw, 1);
    let late_resumed = tick(&resumed(0, 80, 120), 60);
    assert_eq!(late_resumed.params.draw, 10);
}

#[test]
fn fuel_decays_from_the_minute_of_hour() {
    // ignition at minute 600 (10:00), sampled at 10:40, deadline far off
    let t = tick(&fresh(600, 2000), 640);
    assert_eq!(t.params.age, 40);
    assert_eq!(t.params.time_since_log, 40);
    assert_eq!(t.params.fuel_level, 60);
}

#[test]
fn fuel_decays_faster_within_the_last_hour() {
    // 40 minutes remain, so the decay boost of 60 applies
    let t = tick(&fresh(600, 680), 640);
    assert_eq!(t.params.time_since_log, 100);
    assert_eq!(t.params.fuel_level, 1);
}

#[test]
fn fuel_floor_when_log_is_stale() {
    // minute-of-hour 59 with an old fire: time since log is 59, still
    // within range, so fuel is 41; an hour later the boost pins the floor
    let t = tick(&fresh(0, 5000), 119);
    assert_eq!(t.params.time_since_log, 59);
    assert_eq!(t.params.fuel_level, 41);
}

#[test]
fn bed_temp_warms_with_age_then_saturates() {
    let cfg = fresh(0, 1000);
    assert_eq!(tick(&cfg, 10).params.bed_temp, 20);
    assert_eq!(tick(&cfg, 49).params.bed_temp, 98);
    assert_eq!(tick(&cfg, 50).params.bed_temp, 100);
    assert_eq!(tick(&cfg, 500).params.bed_temp, 100);
}

#[test]
fn bed_temp_ramps_down_past_the_deadline() {
    let cfg = resumed(0, 100, 0);
    assert_eq!(tick(&cfg, 110).params.remaining, -10);
    assert_eq!(tick(&cfg, 110).params.bed_temp, 80);
    assert_eq!(tick(&cfg, 149).params.bed_temp, 2);
    assert_eq!(tick(&cfg, 150).params.bed_temp, 0);
}

#[test]
fn fresh_run_stops_at_the_deadline() {
    let cfg = fresh(0, 100);
    assert!(!tick(&cfg, 99).stop);
    assert!(tick(&cfg, 100).stop);
    assert!(tick(&cfg, 101).stop);
}

#[test]
fn resumed_run_stops_50_minutes_past_the_deadline() {
    let cfg = resumed(0, 100, 30);
    assert!(!tick(&cfg, 100).stop);
    assert!(!tick(&cfg, 149).stop);
    assert!(tick(&cfg, 150).stop);
}

#[test]
fn tick_payload_matches_the_codec() {
    let t = tick(&fresh(0, 1000), 500);
    assert_eq!(t.payload, t.flame.dps_payload());
    assert_eq!(t.payload.len(), 38);
}

#[test]
fn fast_forward_trace_counts_down_by_the_step() {
    let cfg = fresh(0, 20);
    let trace = fast_forward(&cfg, 0);
    // remaining runs 20, 18, ..., 0: eleven ticks, the last one stopping
    assert_eq!(trace.len(), 11);
    for (i, t) in trace.iter().enumerate() {
        assert_eq!(t.params.remaining, 20 - 2 * i as i64);
        assert_eq!(t.stop, i == trace.len() - 1);
    }
    for pair in trace.windows(2) {
        assert_eq!(pair[1].params.remaining, pair[0].params.remaining - 2);
    }
}

#[test]
fn fast_forward_resumed_runs_past_the_deadline() {
    let cfg = resumed(0, 10, 60);
    let trace = fast_forward(&cfg, 0);
    // the run ends at the first tick with remaining at or below -50:
    // remaining runs 10, 8, ..., -50
    assert_eq!(trace.last().unwrap().params.remaining, -50);
    assert!(trace.last().unwrap().stop);
    assert_eq!(trace.len(), 31);
    for t in trace.iter().take(trace.len() - 1) {
        assert!(!t.stop);
    }
}

#[test]
fn fast_forward_started_past_the_deadline_stops_at_once() {
    let cfg = fresh(0, 5);
    let trace = fast_forward(&cfg, 10);
    assert_eq!(trace.len(), 1);
    assert!(trace[0].stop);
    assert_eq!(trace[0].params.remaining, -5);
}
