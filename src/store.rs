//! The shared telemetry store: the latest modems, uplink total, battery and
//! external bitrate.
use vstd::prelude::*;
use crate::battery::{sentinel_spec, Battery};
use crate::modem::Modem;

verus! {

/// The latest telemetry, as the pollers last wrote it.
pub struct TelemetryStore {
    pub modems: Vec<Modem>,
    pub total_bitrate: u32,
    pub battery: Battery,
    pub srt_bitrate: i64,
}

/// The contents of a store as plain values.
pub struct StoreView {
    pub modems: Seq<Modem>,
    pub total_bitrate: u32,
    pub battery: Battery,
    pub srt_bitrate: i64,
}

impl View for TelemetryStore {
    type V = StoreView;

    open spec fn view(&self) -> StoreView {
        StoreView {
            modems: self.modems@,
            total_bitrate: self.total_bitrate,
            battery: self.battery,
            srt_bitrate: self.srt_bitrate,
        }
    }
}

/// The modem group cleared: no modems, zero total.
pub open spec fn clear_modems(v: StoreView) -> StoreView {
    StoreView { modems: Seq::empty(), total_bitrate: 0, ..v }
}

/// The battery group set to "no data".
pub open spec fn clear_battery(v: StoreView) -> StoreView {
    StoreView { battery: sentinel_spec(), ..v }
}

/// The modem and battery groups hold what a store holds while the unit is
/// not streaming.
pub open spec fn is_idle(v: StoreView) -> bool {
    &&& v.modems.len() == 0
    &&& v.total_bitrate == 0
    &&& v.battery == sentinel_spec()
}

/// The store after `n` poll rounds in which the unit was not streaming.
pub open spec fn idle_rounds(v: StoreView, n: nat) -> StoreView
    decreases n,
{
    if n == 0 {
        v
    } else {
        clear_battery(clear_modems(idle_rounds(v, (n - 1) as nat)))
    }
}

impl TelemetryStore {
    /// The store at start-up: no modems, zero totals, "no data" battery.
    pub fn new() -> (r: TelemetryStore)
        ensures
            is_idle(r@),
            r@.srt_bitrate == 0,
    {
        TelemetryStore {
            modems: Vec::new(),
            total_bitrate: 0,
            battery: Battery::sentinel(),
            srt_bitrate: 0,
        }
    }

    /// Writes the outcome of one fetch of the external bitrate: the figure
    /// on success, zero on failure. The other groups stay as they are.
    pub fn record_srt_bitrate(&mut self, fetched: Option<i64>)
        ensures
            final(self)@ == (StoreView {
                srt_bitrate: match fetched {
                    Some(b) => b,
                    None => 0,
                },
                ..old(self)@
            }),
    {
        self.srt_bitrate = match fetched {
            Some(b) => b,
            None => 0,
        };
    }
}

/// Polling while the unit is not streaming always leaves the modem and
/// battery groups cleared, however many rounds go by, and the external
/// bitrate untouched.
pub proof fn lemma_idle_polling(v: StoreView, n: nat)
    requires
        n >= 1,
    ensures
        is_idle(idle_rounds(v, n)),
        idle_rounds(v, n) == idle_rounds(v, 1),
        idle_rounds(v, n).srt_bitrate == v.srt_bitrate,
    decreases n,
{
    if n > 1 {
        lemma_idle_polling(v, (n - 1) as nat);
    } else {
        assert(idle_rounds(v, 0) == v);
    }
}

} // verus!
