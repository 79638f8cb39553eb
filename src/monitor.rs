//! The modem and battery pollers' decisions: one call per poll tick, taking
//! what the tick fetched and writing the store.
use vstd::prelude::*;
use crate::battery::{battery_notices, detect_battery_notices, level_notice, sentinel_spec,
    threshold_crossed, Battery, SENTINEL_PERCENTAGE};
use crate::modem::{added_ports, clamp_u32, diff_ports, port_set, removed_ports, total_uplink,
    uplink_sum, Modem};
use crate::notice::Notice;
use crate::store::{clear_battery, clear_modems, StoreView, TelemetryStore};
use crate::text::views;

verus! {

/// The pollers' own memory between ticks.
pub struct Monitor {
    /// The ports seen at the last streaming tick.
    pub known_ports: Vec<String>,
    /// The next diff is not announced: the unit was just not streaming.
    pub ignore: bool,
    /// The last accepted battery snapshot.
    pub prev_battery: Battery,
    /// The battery levels announced when passed on the way down.
    pub battery_notification: Vec<u8>,
}

/// The set of known ports.
pub open spec fn known_set(m: &Monitor) -> Set<Seq<char>> {
    views(m.known_ports@).to_set()
}

/// The notice carries exactly the given joins and leaves, each port once.
pub open spec fn reports_changes(
    n: Notice,
    added: Set<Seq<char>>,
    removed: Set<Seq<char>>,
) -> bool {
    match n {
        Notice::ModemsChanged { added: a, removed: r } => {
            &&& views(a@).to_set() == added
            &&& views(r@).to_set() == removed
            &&& views(a@).no_duplicates()
            &&& views(r@).no_duplicates()
        },
        _ => false,
    }
}

proof fn lemma_empty_iff_no_elements(s: Seq<Seq<char>>)
    ensures
        (s.len() == 0) == (s.to_set() == Set::<Seq<char>>::empty()),
{
    if s.len() == 0 {
        assert(s.to_set() =~= Set::<Seq<char>>::empty());
    } else {
        assert(s.to_set().contains(s[0]));
    }
}

impl Monitor {
    /// Each known port is listed once.
    pub open spec fn wf(&self) -> bool {
        views(self.known_ports@).no_duplicates()
    }

    /// A monitor whose known ports are those of the first snapshot, with no
    /// battery reading yet.
    pub fn new(initial: &Vec<Modem>, battery_notification: Vec<u8>) -> (r: Monitor)
        ensures
            r.wf(),
            known_set(&r) == port_set(initial@),
            !r.ignore,
            r.prev_battery == sentinel_spec(),
            r.battery_notification@ == battery_notification@,
    {
        let mut known: Vec<String> = Vec::new();
        assert(views(known@) =~= Seq::<Seq<char>>::empty());
        let _ = diff_ports(&mut known, initial);
        Monitor {
            known_ports: known,
            ignore: false,
            prev_battery: Battery::sentinel(),
            battery_notification,
        }
    }

    /// One modem tick. Not streaming: the modem group is cleared and the next
    /// diff will not be announced. Fetch failed: nothing changes, the next
    /// tick tries again. Otherwise the snapshot replaces the modem group, the
    /// total is recomputed, the known ports follow the snapshot, and the joins
    /// and leaves are returned unless they are none or the tick follows a
    /// period without streaming.
    pub fn monitor_modems(
        &mut self,
        store: &mut TelemetryStore,
        streaming: bool,
        fetched: Option<Vec<Modem>>,
    ) -> (r: Option<Notice>)
        requires
            old(self).wf(),
        ensures
            final(self).wf(),
            final(self).prev_battery == old(self).prev_battery,
            final(self).battery_notification == old(self).battery_notification,
            !streaming ==> {
                &&& final(store)@ == clear_modems(old(store)@)
                &&& r is None
                &&& final(self).ignore
                &&& final(self).known_ports == old(self).known_ports
            },
            streaming && fetched is None ==> {
                &&& final(store)@ == old(store)@
                &&& r is None
                &&& *final(self) == *old(self)
            },
            streaming && fetched is Some ==> {
                let m = fetched->0@;
                let added = added_ports(known_set(old(self)), port_set(m));
                let removed = removed_ports(known_set(old(self)), port_set(m));
                &&& final(store)@ == (StoreView {
                    modems: m,
                    total_bitrate: clamp_u32(uplink_sum(m)),
                    ..old(store)@
                })
                &&& known_set(final(self)) == port_set(m)
                &&& !final(self).ignore
                &&& (r is Some <==> (!old(self).ignore && (added != Set::<Seq<char>>::empty()
                    || removed != Set::<Seq<char>>::empty())))
                &&& (r is Some ==> reports_changes(r->0, added, removed))
            },
    {
        if !streaming {
            store.modems = Vec::new();
            store.total_bitrate = 0;
            self.ignore = true;
            assert(store@.modems =~= Seq::<Modem>::empty());
            return None;
        }
        match fetched {
            None => None,
            Some(current) => {
                let diff = diff_ports(&mut self.known_ports, &current);
                let total = total_uplink(&current);
                store.modems = current;
                store.total_bitrate = total;
                let was_ignoring = self.ignore;
                self.ignore = false;
                proof {
                    lemma_empty_iff_no_elements(views(diff.added@));
                    lemma_empty_iff_no_elements(views(diff.removed@));
                }
                if !was_ignoring && (diff.added.len() > 0 || diff.removed.len() > 0) {
                    Some(Notice::ModemsChanged { added: diff.added, removed: diff.removed })
                } else {
                    None
                }
            },
        }
    }

    /// The level notice for one configured threshold, where the step from
    /// `prev` to `current` crossed it.
    pub fn battery_percentage_message(&self, percentage: u8, current: &Battery, prev: &Battery) -> (r:
        Option<Notice>)
        ensures
            r == (if threshold_crossed(percentage, *prev, *current) {
                Some(Notice::BatteryLevel { percent: percentage, charging: current.charging })
            } else {
                None::<Notice>
            }),
    {
        level_notice(percentage, current, prev)
    }

    /// One battery tick. Not streaming, or fetch failed: the battery group is
    /// set to "no data" and nothing is announced. Otherwise the snapshot is
    /// stored and compared with the last accepted one (with itself, where
    /// there was none yet), and becomes the last accepted one.
    pub fn monitor_battery(
        &mut self,
        store: &mut TelemetryStore,
        streaming: bool,
        fetched: Option<Battery>,
    ) -> (r: Vec<Notice>)
        ensures
            final(self).known_ports == old(self).known_ports,
            final(self).ignore == old(self).ignore,
            final(self).battery_notification == old(self).battery_notification,
            !streaming || fetched is None ==> {
                &&& final(store)@ == clear_battery(old(store)@)
                &&& r@.len() == 0
                &&& final(self).prev_battery == old(self).prev_battery
            },
            streaming && fetched is Some ==> {
                let b = fetched->0;
                let prev = if old(self).prev_battery.percentage == 255 {
                    b
                } else {
                    old(self).prev_battery
                };
                &&& final(store)@ == (StoreView { battery: b, ..old(store)@ })
                &&& r@ == battery_notices(old(self).battery_notification@, prev, b)
                &&& final(self).prev_battery == b
            },
    {
        if !streaming {
            store.battery = Battery::sentinel();
            return Vec::new();
        }
        match fetched {
            None => {
                store.battery = Battery::sentinel();
                Vec::new()
            },
            Some(b) => {
                store.battery = b;
                let prev = if self.prev_battery.percentage == SENTINEL_PERCENTAGE {
                    b
                } else {
                    self.prev_battery
                };
                let notices = detect_battery_notices(&self.battery_notification, &prev, &b);
                self.prev_battery = b;
                notices
            },
        }
    }
}

} // verus!
