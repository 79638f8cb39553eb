use liveu_stats_bot::action::{
    after_request, next_delay, restart_decision, start_decision, stop_decision, ConfirmStatus,
    ConfirmationPoller, RebootFlow, RebootStatus, Step, VideoState,
};
use liveu_stats_bot::command::{first_token, Command, CommandTable};
use liveu_stats_bot::dispatch::{oauth_token, Dispatch, Route, Sender, Twitch};
use liveu_stats_bot::modem::Modem;
use liveu_stats_bot::reply::{ConfirmAction, Reply};
use liveu_stats_bot::report::stats_report;
use liveu_stats_bot::store::TelemetryStore;
use liveu_stats_bot::text::{decimal_text, signed_decimal_text};

fn table() -> CommandTable {
    CommandTable {
        stats: vec!["!lu".to_string(), "!liveu".to_string()],
        battery: vec!["!bat".to_string()],
        start: "!start".to_string(),
        stop: "!stop".to_string(),
        restart: "!restart".to_string(),
        reboot: "!reboot".to_string(),
        delay: "!delay".to_string(),
    }
}

fn sender(login: &str, owner: bool, moderator: bool) -> Sender {
    Sender { login: login.to_string(), is_owner: owner, is_moderator: moderator }
}

const IGNORE: Dispatch = Dispatch { route: Route::Ignore, arm_cooldown: false };

#[test]
fn first_token_skips_whitespace() {
    assert_eq!(first_token("  !lu   extra"), "!lu");
    assert_eq!(first_token("\t!bat\n"), "!bat");
    assert_eq!(first_token("   "), "");
    assert_eq!(first_token(""), "");
}

#[test]
fn keywords_map_to_commands() {
    let t = table();
    assert_eq!(t.get_command(&"!liveu".to_string()), Command::Stats);
    assert_eq!(t.get_command(&"!bat".to_string()), Command::Battery);
    assert_eq!(t.get_command(&"!stop".to_string()), Command::Stop);
    assert_eq!(t.get_command(&"!delay".to_string()), Command::Delay);
    assert_eq!(t.get_command(&"!nope".to_string()), Command::Unknown);
}

#[test]
fn unknown_command_reaches_no_handler() {
    let tw = Twitch::new(table(), false, Some(vec!["Boss".to_string()]));
    assert_eq!(tw.handle_chat(false, &sender("x", true, true), "!dance now"), IGNORE);
    assert_eq!(tw.handle_chat(false, &sender("boss", false, false), ""), IGNORE);
}

#[test]
fn cooldown_drops_everything() {
    let tw = Twitch::new(table(), false, None);
    assert_eq!(tw.handle_chat(true, &sender("x", true, false), "!lu"), IGNORE);
}

#[test]
fn mod_only_drops_plain_viewers() {
    let tw = Twitch::new(table(), true, None);
    assert_eq!(tw.handle_chat(false, &sender("viewer", false, false), "!lu"), IGNORE);
    assert_eq!(
        tw.handle_chat(false, &sender("m", false, true), "!lu"),
        Dispatch { route: Route::ReadOnly(Command::Stats), arm_cooldown: true }
    );
}

#[test]
fn actions_need_owner_or_admin() {
    let tw = Twitch::new(table(), false, Some(vec!["BossMan".to_string()]));
    assert_eq!(
        tw.handle_chat(false, &sender("m", false, true), "!stop"),
        Dispatch { route: Route::Ignore, arm_cooldown: true }
    );
    assert_eq!(
        tw.handle_chat(false, &sender("bossman", false, false), "!stop"),
        Dispatch { route: Route::Action(Command::Stop), arm_cooldown: true }
    );
    assert_eq!(
        tw.handle_chat(false, &sender("owner", true, false), "!reboot"),
        Dispatch { route: Route::Action(Command::Reboot), arm_cooldown: true }
    );
    assert!(tw.is_admin(&"bossman".to_string()));
    assert!(!tw.is_admin(&"BossMan".to_string()));
}

#[test]
fn stop_while_idle_is_already_stopped() {
    assert_eq!(stop_decision(false), Step::Reply(Reply::AlreadyStopped));
    assert_eq!(Reply::AlreadyStopped.text(), "Stream already stopped");
    assert_eq!(stop_decision(true), Step::Issue);
}

#[test]
fn start_decisions() {
    assert_eq!(start_decision(None), Step::Reply(Reply::Offline));
    let v = VideoState { has_resolution: false, has_bitrate: false };
    assert_eq!(start_decision(Some(v)), Step::Reply(Reply::NoCamera));
    let v = VideoState { has_resolution: true, has_bitrate: true };
    assert_eq!(start_decision(Some(v)), Step::Reply(Reply::AlreadyStreaming));
    let v = VideoState { has_resolution: true, has_bitrate: false };
    assert_eq!(start_decision(Some(v)), Step::Issue);
    assert_eq!(restart_decision(false), Step::Reply(Reply::NotStreaming));
    assert_eq!(restart_decision(true), Step::Issue);
}

#[test]
fn request_outcomes() {
    assert_eq!(after_request(ConfirmAction::Start, false), (Reply::RequestError, None));
    let (r, p) = after_request(ConfirmAction::Start, true);
    assert_eq!(r, Reply::StartingStream);
    assert_eq!(p, Some(ConfirmationPoller::new(15, true, ConfirmAction::Start)));
    let (r, p) = after_request(ConfirmAction::Stop, true);
    assert_eq!(r, Reply::StoppingStream);
    assert_eq!(p, Some(ConfirmationPoller::new(10, false, ConfirmAction::Stop)));
}

#[test]
fn confirmation_succeeds_on_second_poll() {
    let mut p = ConfirmationPoller::new(3, true, ConfirmAction::Start);
    let mut polls = 0;
    let answers = [Some(false), Some(true), Some(true)];
    let mut status = ConfirmStatus::Pending;
    while status == ConfirmStatus::Pending && !p.is_exhausted() {
        status = p.observe(answers[polls]);
        polls += 1;
    }
    assert_eq!(status, ConfirmStatus::Succeeded);
    assert_eq!(polls, 2);
    assert_eq!(p.final_reply(status).text(), "Stream started successfully");
}

#[test]
fn confirmation_times_out() {
    let mut p = ConfirmationPoller::new(2, false, ConfirmAction::Stop);
    assert_eq!(p.observe(None), ConfirmStatus::Pending);
    assert_eq!(p.observe(Some(true)), ConfirmStatus::TimedOut);
    assert!(p.is_exhausted());
    assert_eq!(
        p.final_reply(ConfirmStatus::TimedOut).text(),
        "Stream stopping took too long, might not have worked"
    );
}

#[test]
fn reboot_flow() {
    let mut f = RebootFlow::new(false);
    assert_eq!(f.observe_idle(false), RebootStatus::Waiting);
    assert_eq!(f.observe_idle(true), RebootStatus::Ready);
    assert_eq!(f.final_reply(RebootStatus::Ready), Some(Reply::RebootSuccess));
    let mut f = RebootFlow::new(true);
    let mut last = RebootStatus::Waiting;
    for _ in 0..20 {
        last = f.observe_idle(false);
    }
    assert_eq!(last, RebootStatus::TooLong);
    assert_eq!(f.final_reply(last), Some(Reply::RebootTooLong));
    assert_eq!(f.final_reply(RebootStatus::Ready), None);
}

#[test]
fn delay_toggles() {
    assert_eq!(next_delay(1000), (5000, Reply::HighDelay));
    assert_eq!(next_delay(5000), (1000, Reply::LowDelay));
    assert_eq!(next_delay(0), (1000, Reply::LowDelay));
}

#[test]
fn oauth_prefix_is_removed() {
    assert_eq!(oauth_token("oauth:abc123"), "abc123");
    assert_eq!(oauth_token("abc123"), "abc123");
    assert_eq!(oauth_token("oauth"), "oauth");
}

#[test]
fn decimal_rendering() {
    assert_eq!(decimal_text(0), "0");
    assert_eq!(decimal_text(1234567), "1234567");
    assert_eq!(decimal_text(u64::MAX), u64::MAX.to_string());
    assert_eq!(signed_decimal_text(-42), "-42");
    assert_eq!(signed_decimal_text(i64::MIN), i64::MIN.to_string());
}

fn modem(port: &str, kbps: u32, tech: &str, roaming: bool) -> Modem {
    Modem {
        port: port.to_string(),
        uplink_kbps: kbps,
        connected: true,
        enabled: true,
        technology: tech.to_string(),
        is_currently_roaming: roaming,
    }
}

#[test]
fn stats_report_texts() {
    assert_eq!(stats_report(&Vec::new(), None, None), "LiveU offline :(");
    assert_eq!(stats_report(&vec![modem("a", 0, "", false)], Some(3), None), "LiveU online and ready");
    let m = vec![modem("wlan0", 1200, "", false), modem("usb0", 800, "LTE", true)];
    assert_eq!(
        stats_report(&m, Some(2500), Some(-1)),
        "wlan0: 1200 Kbps, usb0: 800 Kbps (LTE) roaming, Total LRT: 2000 Kbps, SRT: 2500 Kbps, RTMP: -1 Kbps"
    );
    assert_eq!(stats_report(&m, None, None), "wlan0: 1200 Kbps, usb0: 800 Kbps (LTE) roaming, Total LRT: 2000 Kbps");
}

#[test]
fn srt_failure_stores_zero() {
    let mut s = TelemetryStore::new();
    s.record_srt_bitrate(Some(900));
    assert_eq!(s.srt_bitrate, 900);
    s.record_srt_bitrate(None);
    assert_eq!(s.srt_bitrate, 0);
}
