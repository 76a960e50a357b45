//! The dynamic fire controller: derives the composer inputs from elapsed
//! time and a wind-down deadline, one tick at a time, and decides when the
//! run is over.
//!
//! All times are whole minutes on one absolute axis (the caller picks the
//! epoch; minutes since midnight of the ignition day works well). The
//! controller never reads a clock itself: a caller hands it the current
//! minute, or the fast-forward run advances a virtual clock by a fixed
//! two-minute step.
//!
//! Two run variants exist. A fresh run starts with the ignition and stops
//! once the deadline has passed. A resumed run takes over a fire already
//! burning for a given number of minutes, keeps a gentler late draw, and
//! drives the wind-down until fifty minutes past the deadline, where the
//! bed temperature ramp reaches zero.

use vstd::prelude::*;

use crate::model::Flame;

verus! {

/// The fixed virtual-clock step of a fast-forward run, and the pace of a
/// real run, in minutes.
pub const TICK_MINUTES: i64 = 2;

/// The fixed parameters of one controller run.
#[derive(Clone, Copy, Debug, PartialEq, Eq, Structural)]
pub struct ControllerConfig {
    /// The minute the controller started, on the caller's time axis.
    pub start: i64,
    /// The minute of the wind-down deadline (for the default 22:45
    /// deadline: the minute of that time of day, on the same axis).
    pub target: i64,
    /// How many minutes the fire had already been burning at start; zero
    /// for a fresh run.
    pub age_offset: i64,
    /// Whether this run resumes a fire already burning.
    pub resume: bool,
}

impl ControllerConfig {
    /// Times are non-negative and small enough that every derived
    /// quantity fits comfortably in a machine integer.
    pub open spec fn wf(self) -> bool {
        &&& 0 <= self.start < 0x4000_0000
        &&& 0 <= self.target < 0x4000_0000
        &&& 0 <= self.age_offset < 0x4000_0000
    }
}

/// The scalar parameters one tick derives from the clock sample before
/// composing the Flame.
#[derive(Clone, Copy, Debug, PartialEq, Eq, Structural)]
pub struct TickParams {
    /// Minutes since ignition, including any age offset.
    pub age: i64,
    /// Minutes until the deadline; negative once it has passed.
    pub remaining: i64,
    /// Minutes since a log was last added to the fire.
    pub time_since_log: i64,
    /// The derived fuel level percentage.
    pub fuel_level: u8,
    /// The derived air draw percentage.
    pub draw: u8,
    /// The derived fuel bed temperature percentage.
    pub bed_temp: u8,
}

/// Minutes since ignition at minute `now`.
pub open spec fn spec_age(cfg: ControllerConfig, now: int) -> int {
    now - cfg.start + cfg.age_offset
}

/// Minutes left until the deadline at minute `now`.
pub open spec fn spec_remaining(cfg: ControllerConfig, now: int) -> int {
    cfg.target - now
}

/// Minutes since a log was last added: the fire is assumed restocked on
/// the hour, so no earlier than the minute-of-hour, and no earlier than
/// ignition. Within the last hour before the deadline the fuel is treated
/// as decaying an hour faster, since no more logs will be added.
pub open spec fn spec_time_since_log(age: int, minute_of_hour: int, remaining: int) -> int {
    (if age <= minute_of_hour {
        age
    } else {
        minute_of_hour
    }) + (if remaining < 60 {
        60int
    } else {
        0int
    })
}

/// The fuel level percentage: full just after a log, draining by the
/// minute, and held at a floor of 1 once the log is over 99 minutes old.
pub open spec fn spec_fuel_level(time_since_log: int) -> u8 {
    if time_since_log > 99 {
        1
    } else {
        (100 - time_since_log) as u8
    }
}

/// The air draw percentage, in three regimes: building (high draw while
/// the fire is young), winding down (minimal draw near the deadline, a
/// softer minimum on a resumed run), and steady otherwise.
pub open spec fn spec_draw(age: int, remaining: int, resume: bool) -> u8 {
    if age < 50 {
        50
    } else if remaining < 30 {
        if resume {
            10
        } else {
            1
        }
    } else {
        33
    }
}

/// The fuel bed temperature percentage: warming with age up to full while
/// the deadline is ahead, then ramping down linearly to reach zero fifty
/// minutes past it.
pub open spec fn spec_bed_temp(age: int, remaining: int) -> u8 {
    if remaining >= 0 {
        if 2 * age < 100 {
            (2 * age) as u8
        } else {
            100
        }
    } else if remaining > -50 {
        (2 * (remaining + 50)) as u8
    } else {
        0
    }
}

/// Whether the run is over at the given remaining time: a resumed run
/// stops fifty minutes past the deadline, a fresh run at the deadline.
pub open spec fn spec_stop(resume: bool, remaining: int) -> bool {
    if resume {
        remaining <= -50
    } else {
        remaining <= 0
    }
}

/// Everything one tick derives from the clock sample at minute `now`.
pub open spec fn spec_tick_params(cfg: ControllerConfig, now: int) -> TickParams {
    let age = spec_age(cfg, now);
    let remaining = spec_remaining(cfg, now);
    let tsl = spec_time_since_log(age, now % 60, remaining);
    TickParams {
        age: age as i64,
        remaining: remaining as i64,
        time_since_log: tsl as i64,
        fuel_level: spec_fuel_level(tsl),
        draw: spec_draw(age, remaining, cfg.resume),
        bed_temp: spec_bed_temp(age, remaining),
    }
}

/// One controller tick: the derived parameters, the composed Flame, the
/// device command text carrying it, and whether the run is over.
#[derive(Debug)]
pub struct Tick {
    pub params: TickParams,
    pub flame: Flame,
    pub payload: String,
    pub stop: bool,
}

/// What `tick` promises of its result at minute `now`.
pub open spec fn spec_tick_ok(cfg: ControllerConfig, now: int, t: Tick) -> bool {
    &&& t.params == spec_tick_params(cfg, now)
    &&& t.flame == Flame::spec_summon_fire(t.params.bed_temp, t.params.fuel_level, t.params.draw)
    &&& t.flame.wf()
    &&& t.payload@ == t.flame.spec_dps_payload()
    &&& t.stop == spec_stop(cfg.resume, spec_remaining(cfg, now))
}

/// Runs one controller tick at minute `now`: derives the parameters,
/// composes and encodes the Flame, and decides whether the run is over.
pub fn tick(cfg: &ControllerConfig, now: i64) -> (t: Tick)
    requires
        cfg.wf(),
        cfg.start <= now < 0x8000_0000,
    ensures
        spec_tick_ok(*cfg, now as int, t),
{
    let age: i64 = now - cfg.start + cfg.age_offset;
    let remaining: i64 = cfg.target - now;
    let minute_of_hour: i64 = now % 60;

    let mut time_since_log: i64 = if age <= minute_of_hour {
        age
    } else {
        minute_of_hour
    };
    if remaining < 60 {
        time_since_log = time_since_log + 60;
    }

    let fuel_level: u8 = if time_since_log > 99 {
        1
    } else {
        (100 - time_since_log) as u8
    };

    let draw: u8 = if age < 50 {
        50
    } else if remaining < 30 {
        if cfg.resume {
            10
        } else {
            1
        }
    } else {
        33
    };

    let bed_temp: u8 = if remaining >= 0 {
        if 2 * age < 100 {
            (2 * age) as u8
        } else {
            100
        }
    } else if remaining > -50 {
        (2 * (remaining + 50)) as u8
    } else {
        0
    };

    let params = TickParams { age, remaining, time_since_log, fuel_level, draw, bed_temp };
    let flame = Flame::summon_fire(bed_temp, fuel_level, draw);
    let payload = flame.dps_payload();
    let stop = if cfg.resume {
        remaining <= -50
    } else {
        remaining <= 0
    };

    Tick { params, flame, payload, stop }
}

/// Runs the dry-run fast-forward loop: from minute `from`, ticks on a
/// virtual clock advanced by the fixed two-minute step until the stop
/// condition fires, and returns the whole trace. The trace is finite, its
/// `remaining` value drops by exactly the step from each tick to the next,
/// only its last tick stops the run, and every tick obeys the tick
/// contract at its own virtual minute.
pub fn fast_forward(cfg: &ControllerConfig, from: i64) -> (trace: Vec<Tick>)
    requires
        cfg.wf(),
        cfg.start <= from < 0x4000_0000,
    ensures
        trace@.len() >= 1,
        forall|i: int|
            0 <= i < trace@.len() ==> spec_tick_ok(*cfg, from + TICK_MINUTES * i, #[trigger] trace@[i]),
        forall|i: int|
            0 <= i < trace@.len() - 1 ==> (#[trigger] trace@[i].params).remaining - TICK_MINUTES
                == trace@[i + 1].params.remaining,
        forall|i: int| 0 <= i < trace@.len() - 1 ==> !(#[trigger] trace@[i].stop),
        trace@[trace@.len() - 1].stop,
{
    let mut trace: Vec<Tick> = Vec::new();
    let mut now: i64 = from;
    loop
        invariant
            cfg.wf(),
            cfg.start <= from < 0x4000_0000,
            from <= now,
            now == from + TICK_MINUTES * trace@.len(),
            now <= from || now <= cfg.target + 52,
            forall|i: int|
                0 <= i < trace@.len() ==> spec_tick_ok(
                    *cfg,
                    from + TICK_MINUTES * i,
                    #[trigger] trace@[i],
                ),
            forall|i: int| 0 <= i < trace@.len() ==> !(#[trigger] trace@[i].stop),
        decreases cfg.target + 52 - now,
    {
        let t = tick(cfg, now);
        let stop = t.stop;
        trace.push(t);
        if stop {
            proof {
                assert forall|i: int|
                    0 <= i < trace@.len() - 1 implies (#[trigger] trace@[i].params).remaining
                    - TICK_MINUTES == trace@[i + 1].params.remaining by {
                    assert(spec_tick_ok(*cfg, from + TICK_MINUTES * i, trace@[i]));
                    assert(spec_tick_ok(*cfg, from + TICK_MINUTES * (i + 1), trace@[i + 1]));
                }
            }
            return trace;
        }
        now = now + TICK_MINUTES;
    }
}

} // verus!
