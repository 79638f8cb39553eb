//! Command parsing, permission and cooldown gating, and routing.
use vstd::prelude::*;
use vstd::string::{StrSliceExecFns, StringExecFns};
use crate::modem::contains_string;
use crate::text::views;

verus! {

/// What a chat message asks for.
#[derive(Debug, Clone, Copy, PartialEq, Eq, Structural)]
pub enum Command {
    Stats,
    Battery,
    Start,
    Stop,
    Restart,
    Reboot,
    Delay,
    Unknown,
}

/// The keywords of each command. Stats and battery may have several.
pub struct CommandTable {
    pub stats: Vec<String>,
    pub battery: Vec<String>,
    pub start: String,
    pub stop: String,
    pub restart: String,
    pub reboot: String,
    pub delay: String,
}

/// The command a keyword stands for; the first match in the fixed order
/// stats, battery, start, stop, restart, reboot, delay.
pub open spec fn command_of(t: CommandTable, word: Seq<char>) -> Command {
    if views(t.stats@).contains(word) {
        Command::Stats
    } else if views(t.battery@).contains(word) {
        Command::Battery
    } else if t.start@ == word {
        Command::Start
    } else if t.stop@ == word {
        Command::Stop
    } else if t.restart@ == word {
        Command::Restart
    } else if t.reboot@ == word {
        Command::Reboot
    } else if t.delay@ == word {
        Command::Delay
    } else {
        Command::Unknown
    }
}

/// An ASCII whitespace character: space, tab, line feed, form feed, carriage
/// return.
pub open spec fn is_ascii_space(c: char) -> bool {
    c == ' ' || c == '\t' || c == '\n' || c == '\x0C' || c == '\r'
}

/// The first position at or after `i` that is not whitespace.
pub open spec fn space_end(s: Seq<char>, i: int) -> int
    decreases s.len() - i,
{
    if 0 <= i < s.len() && is_ascii_space(s[i]) {
        space_end(s, i + 1)
    } else {
        i
    }
}

/// The first position at or after `i` that is whitespace, or the end.
pub open spec fn word_end(s: Seq<char>, i: int) -> int
    decreases s.len() - i,
{
    if 0 <= i < s.len() && !is_ascii_space(s[i]) {
        word_end(s, i + 1)
    } else {
        i
    }
}

/// The first whitespace-delimited word; empty where there is none.
pub open spec fn first_word(s: Seq<char>) -> Seq<char> {
    s.subrange(space_end(s, 0), word_end(s, space_end(s, 0)))
}

fn is_space_char(c: char) -> (r: bool)
    ensures
        r == is_ascii_space(c),
{
    c == ' ' || c == '\t' || c == '\n' || c == '\x0C' || c == '\r'
}

/// The first whitespace-delimited word of a message.
pub fn first_token(text: &str) -> (r: String)
    ensures
        r@ == first_word(text@),
{
    let n = text.unicode_len();
    let mut i: usize = 0;
    while i < n && is_space_char(text.get_char(i))
        invariant
            n == text@.len(),
            i <= n,
            space_end(text@, i as int) == space_end(text@, 0),
        decreases n - i,
    {
        i = i + 1;
    }
    let mut j: usize = i;
    while j < n && !is_space_char(text.get_char(j))
        invariant
            n == text@.len(),
            i <= j <= n,
            space_end(text@, 0) == i,
            word_end(text@, j as int) == word_end(text@, i as int),
        decreases n - j,
    {
        j = j + 1;
    }
    String::from_str(text.substring_char(i, j))
}

impl CommandTable {
    /// The command that a keyword stands for.
    pub fn get_command(&self, word: &String) -> (r: Command)
        ensures
            r == command_of(*self, word@),
    {
        if contains_string(&self.stats, word) {
            return Command::Stats;
        }
        if contains_string(&self.battery, word) {
            return Command::Battery;
        }
        if self.start == *word {
            return Command::Start;
        }
        if self.stop == *word {
            return Command::Stop;
        }
        if self.restart == *word {
            return Command::Restart;
        }
        if self.reboot == *word {
            return Command::Reboot;
        }
        if self.delay == *word {
            return Command::Delay;
        }
        Command::Unknown
    }
}

} // verus!
