//! The notifications the pollers send to the chat channel, and their text.
use vstd::prelude::*;
use vstd::string::StringExecFns;
use crate::text::{append_comma_joined, comma_join, decimal, decimal_text, views};

verus! {

/// A notification for the chat channel.
pub enum Notice {
    /// Ports joined and/or left.
    ModemsChanged { added: Vec<String>, removed: Vec<String> },
    PowerLost,
    NowCharging,
    TooHot,
    FullyCharged,
    /// The battery passed a configured level on its way down.
    BatteryLevel { percent: u8, charging: bool },
}

/// The clause on joined ports: empty when none joined.
pub open spec fn added_clause(added: Seq<Seq<char>>) -> Seq<char> {
    if added.len() == 0 {
        Seq::empty()
    } else if added.len() == 1 {
        "new modem connected: "@ + comma_join(added)
    } else {
        "new modems connected: "@ + comma_join(added)
    }
}

/// The clause on ports that left: empty when none left.
pub open spec fn removed_clause(removed: Seq<Seq<char>>) -> Seq<char> {
    if removed.len() == 0 {
        Seq::empty()
    } else if removed.len() == 1 {
        "modem disconnected: "@ + comma_join(removed)
    } else {
        "modems disconnected: "@ + comma_join(removed)
    }
}

/// Both clauses, separated by `"; "` when both are there.
pub open spec fn modems_message(added: Seq<Seq<char>>, removed: Seq<Seq<char>>) -> Seq<char> {
    if added.len() > 0 && removed.len() > 0 {
        added_clause(added) + "; "@ + removed_clause(removed)
    } else {
        added_clause(added) + removed_clause(removed)
    }
}

/// The text of a notification.
pub open spec fn notice_text(n: Notice) -> Seq<char> {
    match n {
        Notice::ModemsChanged { added, removed } => "LiveU: "@ + modems_message(
            views(added@),
            views(removed@),
        ),
        Notice::PowerLost => "External power lost, running on battery"@,
        Notice::NowCharging => "Battery is now charging"@,
        Notice::TooHot => "Battery is too hot to charge"@,
        Notice::FullyCharged => "Battery is fully charged"@,
        Notice::BatteryLevel { percent, charging } => "Battery at "@ + decimal(percent as nat)
            + (if charging { "%, charging"@ } else { "%, not charging"@ }),
    }
}

/// Writes the joins and leaves as one message: a clause for the ports that
/// joined, one for those that left, each in singular or plural.
pub fn generate_modems_message(new_modems: &Vec<String>, removed_modems: &Vec<String>) -> (r:
    String)
    ensures
        r@ == modems_message(views(new_modems@), views(removed_modems@)),
{
    let mut message = String::new();
    if new_modems.len() > 0 {
        if new_modems.len() > 1 {
            message.append("new modems connected: ");
        } else {
            message.append("new modem connected: ");
        }
        append_comma_joined(&mut message, new_modems);
    }
    assert(message@ =~= added_clause(views(new_modems@)));
    if removed_modems.len() > 0 {
        if new_modems.len() > 0 {
            message.append("; ");
        }
        let ghost before = message@;
        let mut clause = String::new();
        if removed_modems.len() > 1 {
            clause.append("modems disconnected: ");
        } else {
            clause.append("modem disconnected: ");
        }
        append_comma_joined(&mut clause, removed_modems);
        message.append(clause.as_str());
        assert(message@ =~= before + removed_clause(views(removed_modems@)));
    } else {
        assert(message@ =~= added_clause(views(new_modems@)) + removed_clause(
            views(removed_modems@),
        ));
    }
    message
}

impl Notice {
    /// The text sent to the channel.
    pub fn text(&self) -> (r: String)
        ensures
            r@ == notice_text(*self),
    {
        match self {
            Notice::ModemsChanged { added, removed } => {
                let body = generate_modems_message(added, removed);
                let mut s = String::from_str("LiveU: ");
                s.append(body.as_str());
                s
            },
            Notice::PowerLost => String::from_str("External power lost, running on battery"),
            Notice::NowCharging => String::from_str("Battery is now charging"),
            Notice::TooHot => String::from_str("Battery is too hot to charge"),
            Notice::FullyCharged => String::from_str("Battery is fully charged"),
            Notice::BatteryLevel { percent, charging } => {
                let mut s = String::from_str("Battery at ");
                let digits = decimal_text(*percent as u64);
                s.append(digits.as_str());
                if *charging {
                    s.append("%, charging");
                } else {
                    s.append("%, not charging");
                }
                s
            },
        }
    }
}

} // verus!
