use liveu_stats_bot::battery::Battery;
use liveu_stats_bot::modem::{diff_ports, total_uplink, Modem};
use liveu_stats_bot::monitor::Monitor;
use liveu_stats_bot::notice::{generate_modems_message, Notice};
use liveu_stats_bot::store::TelemetryStore;

fn modem(port: &str, kbps: u32) -> Modem {
    Modem {
        port: port.to_string(),
        uplink_kbps: kbps,
        connected: true,
        enabled: true,
        technology: String::new(),
        is_currently_roaming: false,
    }
}

fn strings(v: &[&str]) -> Vec<String> {
    v.iter().map(|s| s.to_string()).collect()
}

fn sorted(mut v: Vec<String>) -> Vec<String> {
    v.sort();
    v
}

fn battery(percentage: u8, charging: bool, discharging: bool) -> Battery {
    Battery { connected: true, percentage, run_time_to_empty: 0, discharging, charging }
}

#[test]
fn diff_reports_joins_and_leaves() {
    let mut known = strings(&["A", "B"]);
    let current = vec![modem("B", 1), modem("C", 2)];
    let d = diff_ports(&mut known, &current);
    assert_eq!(d.added, strings(&["C"]));
    assert_eq!(d.removed, strings(&["A"]));
    assert_eq!(sorted(known), strings(&["B", "C"]));
}

#[test]
fn diff_known_after_is_known_minus_removed_plus_added() {
    let mut known = strings(&["wlan0", "eth0", "usb1"]);
    let before = known.clone();
    let current = vec![modem("eth0", 1), modem("usb2", 2), modem("usb2", 3), modem("usb3", 0)];
    let d = diff_ports(&mut known, &current);
    for a in &d.added {
        assert!(!d.removed.contains(a));
    }
    let mut expected: Vec<String> =
        before.into_iter().filter(|p| !d.removed.contains(p)).collect();
    expected.extend(d.added.clone());
    assert_eq!(sorted(known), sorted(expected));
    assert_eq!(d.added, strings(&["usb2", "usb3"]));
    assert_eq!(sorted(d.removed), strings(&["usb1", "wlan0"]));
}

#[test]
fn single_new_modem_uses_singular() {
    let text = generate_modems_message(&strings(&["A"]), &Vec::new());
    assert!(text.contains("new modem "));
    assert!(!text.contains("new modems"));
    assert!(text.contains("A"));
    assert_eq!(text, "new modem connected: A");
}

#[test]
fn two_new_modems_use_plural() {
    let text = generate_modems_message(&strings(&["A", "B"]), &Vec::new());
    assert!(text.contains("new modems"));
    assert_eq!(text, "new modems connected: A, B");
}

#[test]
fn joins_and_leaves_in_one_message() {
    let text = generate_modems_message(&strings(&["A"]), &strings(&["B", "C"]));
    assert_eq!(text, "new modem connected: A; modems disconnected: B, C");
    let text = generate_modems_message(&Vec::new(), &strings(&["B"]));
    assert_eq!(text, "modem disconnected: B");
    assert_eq!(generate_modems_message(&Vec::new(), &Vec::new()), "");
}

#[test]
fn modems_notice_text_has_prefix() {
    let n = Notice::ModemsChanged { added: strings(&["A"]), removed: Vec::new() };
    assert_eq!(n.text(), "LiveU: new modem connected: A");
}

#[test]
fn total_uplink_sums_and_saturates() {
    assert_eq!(total_uplink(&vec![modem("a", 100), modem("b", 250)]), 350);
    assert_eq!(total_uplink(&Vec::new()), 0);
    assert_eq!(total_uplink(&vec![modem("a", u32::MAX), modem("b", 5)]), u32::MAX);
}

#[test]
fn modem_tick_updates_store_and_reports() {
    let mut mon = Monitor::new(&vec![modem("A", 0)], vec![]);
    let mut store = TelemetryStore::new();
    let n = mon.monitor_modems(&mut store, true, Some(vec![modem("A", 10), modem("B", 20)]));
    assert_eq!(store.total_bitrate, 30);
    assert_eq!(store.modems.len(), 2);
    match n {
        Some(Notice::ModemsChanged { added, removed }) => {
            assert_eq!(added, strings(&["B"]));
            assert!(removed.is_empty());
        }
        _ => panic!("expected a modems notice"),
    }
    let n = mon.monitor_modems(&mut store, true, Some(vec![modem("A", 10), modem("B", 20)]));
    assert!(n.is_none());
}

#[test]
fn first_tick_after_idle_is_not_announced() {
    let mut mon = Monitor::new(&vec![modem("A", 0)], vec![]);
    let mut store = TelemetryStore::new();
    assert!(mon.monitor_modems(&mut store, false, None).is_none());
    let n = mon.monitor_modems(&mut store, true, Some(vec![modem("B", 20)]));
    assert!(n.is_none());
    assert_eq!(store.total_bitrate, 20);
    let n = mon.monitor_modems(&mut store, true, Some(vec![modem("C", 20)]));
    assert!(n.is_some());
}

#[test]
fn failed_modem_fetch_changes_nothing() {
    let mut mon = Monitor::new(&vec![modem("A", 0)], vec![]);
    let mut store = TelemetryStore::new();
    mon.monitor_modems(&mut store, true, Some(vec![modem("A", 7)]));
    assert!(mon.monitor_modems(&mut store, true, None).is_none());
    assert_eq!(store.total_bitrate, 7);
    assert_eq!(store.modems[0].port, "A");
}

#[test]
fn idle_polling_zeroes_store_and_stays_silent() {
    let mut mon = Monitor::new(&vec![modem("A", 0)], vec![50, 20]);
    let mut store = TelemetryStore::new();
    mon.monitor_modems(&mut store, true, Some(vec![modem("A", 10), modem("B", 5)]));
    mon.monitor_battery(&mut store, true, Some(battery(80, false, true)));
    store.record_srt_bitrate(Some(4000));
    for _ in 0..3 {
        assert!(mon.monitor_modems(&mut store, false, None).is_none());
        assert!(mon.monitor_battery(&mut store, false, None).is_empty());
        assert!(store.modems.is_empty());
        assert_eq!(store.total_bitrate, 0);
        assert_eq!(store.battery, Battery::sentinel());
        assert_eq!(store.srt_bitrate, 4000);
    }
}
