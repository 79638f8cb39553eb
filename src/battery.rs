//! Battery snapshots and the transition detector that turns two consecutive
//! snapshots into notifications.
use vstd::prelude::*;
use crate::notice::Notice;

verus! {

/// The percentage that stands for "no data".
pub const SENTINEL_PERCENTAGE: u8 = 255;

/// The battery state reported by the unit.
#[derive(Debug, Clone, Copy, PartialEq, Eq, Structural)]
pub struct Battery {
    pub connected: bool,
    pub percentage: u8,
    pub run_time_to_empty: u32,
    pub discharging: bool,
    pub charging: bool,
}

/// The snapshot that stands for "no data".
pub open spec fn sentinel_spec() -> Battery {
    Battery {
        connected: false,
        percentage: 255,
        run_time_to_empty: 0,
        discharging: false,
        charging: false,
    }
}

impl Battery {
    /// The "no data" snapshot: percentage 255, all flags false.
    pub fn sentinel() -> (r: Battery)
        ensures
            r == sentinel_spec(),
    {
        Battery {
            connected: false,
            percentage: SENTINEL_PERCENTAGE,
            run_time_to_empty: 0,
            discharging: false,
            charging: false,
        }
    }
}

/// External power went away.
pub open spec fn power_lost(prev: Battery, cur: Battery) -> bool {
    !cur.charging && cur.discharging && !prev.discharging
}

/// Charging began.
pub open spec fn charging_started(prev: Battery, cur: Battery) -> bool {
    cur.charging && !cur.discharging && !prev.charging
}

/// Charging or discharging stopped below full: the unit is too hot to charge.
pub open spec fn too_hot(prev: Battery, cur: Battery) -> bool {
    cur.percentage < 100 && !cur.charging && !cur.discharging && (prev.charging
        || prev.discharging)
}

/// Charging stopped at full.
pub open spec fn fully_charged(prev: Battery, cur: Battery) -> bool {
    cur.percentage == 100 && !cur.charging && !cur.discharging && prev.charging
        && !prev.discharging
}

/// `n` alone where `b` holds, else nothing.
pub open spec fn when(b: bool, n: Notice) -> Seq<Notice> {
    if b { seq![n] } else { Seq::empty() }
}

/// The four state transitions, in their fixed order; none for a "no data"
/// snapshot.
pub open spec fn transitions(prev: Battery, cur: Battery) -> Seq<Notice> {
    if cur.percentage == 255 {
        Seq::empty()
    } else {
        when(power_lost(prev, cur), Notice::PowerLost) + when(
            charging_started(prev, cur),
            Notice::NowCharging,
        ) + when(too_hot(prev, cur), Notice::TooHot) + when(
            fully_charged(prev, cur),
            Notice::FullyCharged,
        )
    }
}

/// The level was passed on the way down: the percentage now equals it and was
/// above it before.
pub open spec fn threshold_crossed(level: u8, prev: Battery, cur: Battery) -> bool {
    cur.percentage == level && prev.percentage > level
}

/// The level notices of the thresholds that were crossed, in threshold order.
pub open spec fn level_notices(levels: Seq<u8>, prev: Battery, cur: Battery) -> Seq<Notice>
    decreases levels.len(),
{
    if levels.len() == 0 {
        Seq::empty()
    } else {
        level_notices(levels.drop_last(), prev, cur) + when(
            threshold_crossed(levels.last(), prev, cur),
            Notice::BatteryLevel { percent: levels.last(), charging: cur.charging },
        )
    }
}

/// All notices for a step from `prev` to `cur`: the transitions, then the
/// crossed thresholds; nothing at all for a "no data" snapshot.
pub open spec fn battery_notices(levels: Seq<u8>, prev: Battery, cur: Battery) -> Seq<Notice> {
    if cur.percentage == 255 {
        Seq::empty()
    } else {
        transitions(prev, cur) + level_notices(levels, prev, cur)
    }
}

/// The transition notices for a step from `prev` to `cur`.
pub fn detect_transitions(prev: &Battery, cur: &Battery) -> (r: Vec<Notice>)
    ensures
        r@ == transitions(*prev, *cur),
        cur.percentage == 255 ==> r@.len() == 0,
{
    let mut out: Vec<Notice> = Vec::new();
    if cur.percentage == SENTINEL_PERCENTAGE {
        assert(out@ =~= transitions(*prev, *cur));
        return out;
    }
    if !cur.charging && cur.discharging && !prev.discharging {
        out.push(Notice::PowerLost);
    }
    assert(out@ =~= when(power_lost(*prev, *cur), Notice::PowerLost));
    let ghost a = out@;
    if cur.charging && !cur.discharging && !prev.charging {
        out.push(Notice::NowCharging);
    }
    assert(out@ =~= a + when(charging_started(*prev, *cur), Notice::NowCharging));
    let ghost b = out@;
    if cur.percentage < 100 && !cur.charging && !cur.discharging && (prev.charging
        || prev.discharging) {
        out.push(Notice::TooHot);
    }
    assert(out@ =~= b + when(too_hot(*prev, *cur), Notice::TooHot));
    let ghost c = out@;
    if cur.percentage == 100 && !cur.charging && !cur.discharging && prev.charging
        && !prev.discharging {
        out.push(Notice::FullyCharged);
    }
    assert(out@ =~= c + when(fully_charged(*prev, *cur), Notice::FullyCharged));
    out
}

/// The level notice for one threshold, where it was crossed.
pub fn level_notice(percentage: u8, current: &Battery, prev: &Battery) -> (r: Option<Notice>)
    ensures
        r == (if threshold_crossed(percentage, *prev, *current) {
            Some(Notice::BatteryLevel { percent: percentage, charging: current.charging })
        } else {
            None::<Notice>
        }),
{
    if current.percentage == percentage && prev.percentage > percentage {
        Some(Notice::BatteryLevel { percent: percentage, charging: current.charging })
    } else {
        None
    }
}

/// Every notice for a step from `prev` to `cur`, given the configured
/// thresholds.
pub fn detect_battery_notices(levels: &Vec<u8>, prev: &Battery, cur: &Battery) -> (r: Vec<Notice>)
    ensures
        r@ == battery_notices(levels@, *prev, *cur),
{
    let mut out = detect_transitions(prev, cur);
    if cur.percentage == SENTINEL_PERCENTAGE {
        return out;
    }
    let ghost base = out@;
    let mut i: usize = 0;
    while i < levels.len()
        invariant
            i <= levels.len(),
            out@ == base + level_notices(levels@.subrange(0, i as int), *prev, *cur),
        decreases levels.len() - i,
    {
        let ghost before = out@;
        let level = levels[i];
        assert(levels@.subrange(0, i as int + 1).drop_last() =~= levels@.subrange(0, i as int));
        match level_notice(level, cur, prev) {
            Some(n) => {
                out.push(n);
                assert(out@ =~= base + level_notices(levels@.subrange(0, i as int + 1), *prev, *cur));
            },
            None => {
                assert(out@ =~= base + level_notices(levels@.subrange(0, i as int + 1), *prev, *cur));
            },
        }
        i = i + 1;
    }
    assert(levels@.subrange(0, levels@.len() as int) =~= levels@);
    out
}

/// A snapshot with "no data" gives no notice of any kind, whatever came before.
pub proof fn lemma_sentinel_is_silent(levels: Seq<u8>, prev: Battery, cur: Battery)
    requires
        cur.percentage == 255,
    ensures
        transitions(prev, cur).len() == 0,
        battery_notices(levels, prev, cur).len() == 0,
{
}

} // verus!
