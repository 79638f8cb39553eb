//! The answers to the read-only commands: the uplink overview and the
//! battery state.
use vstd::prelude::*;
use vstd::string::{StrSliceExecFns, StringExecFns};
use crate::battery::{Battery, SENTINEL_PERCENTAGE};
use crate::modem::{clamp_u32, total_uplink, uplink_sum, Modem};
use crate::reply::{reply_text, Reply};
use crate::text::{decimal, decimal_text, signed_decimal, signed_decimal_text};

verus! {

/// One interface: port, uplink, technology in parentheses when known, the
/// roaming mark, and a trailing separator.
pub open spec fn modem_line(m: Modem) -> Seq<char> {
    m.port@ + ": "@ + decimal(m.uplink_kbps as nat) + " Kbps"@ + (if m.technology@.len() > 0 {
        " ("@ + m.technology@ + ")"@
    } else {
        Seq::empty()
    }) + (if m.is_currently_roaming { " roaming"@ } else { Seq::empty() }) + ", "@
}

/// The lines of all interfaces, in order.
pub open spec fn modem_lines(m: Seq<Modem>) -> Seq<char>
    decreases m.len(),
{
    if m.len() == 0 {
        Seq::empty()
    } else {
        modem_lines(m.drop_last()) + modem_line(m.last())
    }
}

/// An optional bitrate figure after its label.
pub open spec fn bitrate_part(label: Seq<char>, b: Option<i64>) -> Seq<char> {
    match b {
        Some(v) => label + signed_decimal(v as int) + " Kbps"@,
        None => Seq::empty(),
    }
}

/// The overview: "offline" without interfaces, "online and ready" when all
/// uplinks are zero, else each interface, the total, and the external
/// figures that are configured.
pub open spec fn stats_text(m: Seq<Modem>, srt: Option<i64>, rtmp: Option<i64>) -> Seq<char> {
    if m.len() == 0 {
        reply_text(Reply::Offline)
    } else if uplink_sum(m) == 0 {
        reply_text(Reply::OnlineReady)
    } else {
        modem_lines(m) + "Total LRT: "@ + decimal(clamp_u32(uplink_sum(m)) as nat) + " Kbps"@
            + bitrate_part(", SRT: "@, srt) + bitrate_part(", RTMP: "@, rtmp)
    }
}

fn modem_line_text(m: &Modem) -> (r: String)
    ensures
        r@ == modem_line(*m),
{
    let mut s = m.port.clone();
    s.append(": ");
    let digits = decimal_text(m.uplink_kbps as u64);
    s.append(digits.as_str());
    s.append(" Kbps");
    if m.technology.as_str().unicode_len() > 0 {
        s.append(" (");
        s.append(m.technology.as_str());
        s.append(")");
    }
    if m.is_currently_roaming {
        s.append(" roaming");
    }
    s.append(", ");
    assert(s@ =~= modem_line(*m));
    s
}

fn append_bitrate(out: &mut String, label: &str, b: Option<i64>)
    ensures
        final(out)@ == old(out)@ + bitrate_part(label@, b),
{
    match b {
        Some(v) => {
            let ghost before = out@;
            out.append(label);
            let digits = signed_decimal_text(v);
            out.append(digits.as_str());
            out.append(" Kbps");
            assert(out@ =~= before + bitrate_part(label@, b));
        },
        None => {
            assert(out@ =~= old(out)@ + bitrate_part(label@, b));
        },
    }
}

/// The answer to the stats command, from the store's modems and the
/// configured external bitrates.
pub fn stats_report(modems: &Vec<Modem>, srt: Option<i64>, rtmp: Option<i64>) -> (r: String)
    ensures
        r@ == stats_text(modems@, srt, rtmp),
{
    if modems.len() == 0 {
        return Reply::Offline.text();
    }
    let total = total_uplink(modems);
    if total == 0 {
        return Reply::OnlineReady.text();
    }
    let mut message = String::new();
    let mut i: usize = 0;
    while i < modems.len()
        invariant
            i <= modems.len(),
            message@ == modem_lines(modems@.subrange(0, i as int)),
        decreases modems.len() - i,
    {
        let line = modem_line_text(&modems[i]);
        message.append(line.as_str());
        assert(modems@.subrange(0, i as int + 1).drop_last() =~= modems@.subrange(0, i as int));
        i = i + 1;
    }
    assert(modems@.subrange(0, modems@.len() as int) =~= modems@);
    message.append("Total LRT: ");
    let digits = decimal_text(total as u64);
    message.append(digits.as_str());
    message.append(" Kbps");
    append_bitrate(&mut message, ", SRT: ", srt);
    append_bitrate(&mut message, ", RTMP: ", rtmp);
    message
}

/// The charging state in words.
pub open spec fn charging_text(b: Battery) -> Seq<char> {
    if b.charging {
        "charging"@
    } else if b.percentage == 100 {
        "fully charged"@ + (if b.connected { " and connected"@ } else { Seq::empty() })
    } else if b.percentage < 100 && !b.discharging {
        "too hot to charge"@
    } else {
        "not charging"@
    }
}

/// The time left, when discharging with a known estimate.
pub open spec fn time_left_text(b: Battery) -> Seq<char> {
    if b.run_time_to_empty != 0 && b.discharging {
        let hours = b.run_time_to_empty / 60;
        let minutes = b.run_time_to_empty % 60;
        " ("@ + (if hours != 0 { decimal(hours as nat) + " hours "@ } else { Seq::empty() })
            + decimal(minutes as nat) + " minutes left)"@
    } else {
        Seq::empty()
    }
}

/// The battery answer: "offline" for "no data", else the percentage, the
/// charging state and the time left.
pub open spec fn battery_text(b: Battery) -> Seq<char> {
    if b.percentage == 255 {
        reply_text(Reply::Offline)
    } else {
        "Battery at "@ + decimal(b.percentage as nat) + "%, "@ + charging_text(b)
            + time_left_text(b)
    }
}

/// The answer to the battery command.
pub fn battery_report(b: &Battery) -> (r: String)
    ensures
        r@ == battery_text(*b),
{
    if b.percentage == SENTINEL_PERCENTAGE {
        return Reply::Offline.text();
    }
    let mut s = String::from_str("Battery at ");
    let digits = decimal_text(b.percentage as u64);
    s.append(digits.as_str());
    s.append("%, ");
    let ghost head = s@;
    if b.charging {
        s.append("charging");
    } else if b.percentage == 100 {
        s.append("fully charged");
        if b.connected {
            s.append(" and connected");
        }
    } else if b.percentage < 100 && !b.discharging {
        s.append("too hot to charge");
    } else {
        s.append("not charging");
    }
    assert(s@ =~= head + charging_text(*b));
    let ghost mid = s@;
    if b.run_time_to_empty != 0 && b.discharging {
        let hours = b.run_time_to_empty / 60;
        let minutes = b.run_time_to_empty % 60;
        s.append(" (");
        if hours != 0 {
            let h = decimal_text(hours as u64);
            s.append(h.as_str());
            s.append(" hours ");
        }
        let m = decimal_text(minutes as u64);
        s.append(m.as_str());
        s.append(" minutes left)");
    }
    assert(s@ =~= mid + time_left_text(*b));
    s
}

} // verus!
