//! The admission of every chat message: cooldown, permissions, and the choice
//! of handler group.
use vstd::prelude::*;
use vstd::string::{StrSliceExecFns, StringExecFns};
use crate::command::{command_of, first_token, first_word, Command, CommandTable};
use crate::modem::contains_string;
use crate::text::views;

verus! {

/// The lower-case form of a string, as std's `to_lowercase` gives it.
pub uninterp spec fn lower_of(s: Seq<char>) -> Seq<char>;

/// Relies on `str::to_lowercase`: the result depends on the characters alone.
#[verifier::external_body]
fn lowercase(s: &String) -> (r: String)
    ensures
        r@ == lower_of(s@),
{
    s.to_lowercase()
}

/// Who sent a chat message.
pub struct Sender {
    pub login: String,
    pub is_owner: bool,
    pub is_moderator: bool,
}

/// Where a message goes.
#[derive(Debug, Clone, Copy, PartialEq, Eq, Structural)]
pub enum Route {
    /// Dropped without a reply.
    Ignore,
    /// A query any permitted sender may make.
    ReadOnly(Command),
    /// An action on the unit.
    Action(Command),
}

/// The admission outcome for one message.
#[derive(Debug, Clone, Copy, PartialEq, Eq, Structural)]
pub struct Dispatch {
    pub route: Route,
    /// Whether the cooldown starts now.
    pub arm_cooldown: bool,
}

/// Admission: a running cooldown drops everything; in moderator-only mode a
/// sender who is neither owner, moderator nor admin is dropped; an unknown
/// command is dropped. Any other message starts the cooldown. Stats and
/// battery then go to the read-only group; the actions go to the action
/// group only for the owner or an admin, and are dropped otherwise.
pub open spec fn dispatch_of(
    cooldown_active: bool,
    mod_only: bool,
    owner: bool,
    moderator: bool,
    admin: bool,
    cmd: Command,
) -> Dispatch {
    if cooldown_active || (mod_only && !(owner || moderator || admin)) || cmd == Command::Unknown {
        Dispatch { route: Route::Ignore, arm_cooldown: false }
    } else if cmd == Command::Stats || cmd == Command::Battery {
        Dispatch { route: Route::ReadOnly(cmd), arm_cooldown: true }
    } else if owner || admin {
        Dispatch { route: Route::Action(cmd), arm_cooldown: true }
    } else {
        Dispatch { route: Route::Ignore, arm_cooldown: true }
    }
}

/// The chat-side settings of the dispatcher.
pub struct Twitch {
    pub commands: CommandTable,
    pub mod_only: bool,
    /// The admin logins, lower-cased.
    pub admins: Vec<String>,
}

/// The admin list lower-cased, in order.
pub open spec fn lowered(admins: Seq<String>) -> Seq<Seq<char>> {
    views(admins).map_values(|a: Seq<char>| lower_of(a))
}

impl Twitch {
    /// A dispatcher over a command table, with the configured admins
    /// (compared in lower case).
    pub fn new(commands: CommandTable, mod_only: bool, admin_users: Option<Vec<String>>) -> (r:
        Twitch)
        ensures
            r.commands == commands,
            r.mod_only == mod_only,
            views(r.admins@) == match admin_users {
                Some(a) => lowered(a@),
                None => Seq::<Seq<char>>::empty(),
            },
    {
        let mut admins: Vec<String> = Vec::new();
        match admin_users {
            None => {
                assert(views(admins@) =~= Seq::<Seq<char>>::empty());
            },
            Some(users) => {
                let mut i: usize = 0;
                while i < users.len()
                    invariant
                        i <= users.len(),
                        views(admins@) =~= lowered(users@.subrange(0, i as int)),
                    decreases users.len() - i,
                {
                    let ghost before = admins@;
                    admins.push(lowercase(&users[i]));
                    assert(views(admins@) =~= views(before).push(lower_of(users@[i as int]@)));
                    assert(users@.subrange(0, i as int + 1) =~= users@.subrange(0, i as int).push(
                        users@[i as int],
                    ));
                    i = i + 1;
                }
                assert(users@.subrange(0, users@.len() as int) =~= users@);
            },
        }
        Twitch { commands, mod_only, admins }
    }

    /// Whether the login is on the admin list.
    pub fn is_admin(&self, login: &String) -> (r: bool)
        ensures
            r == views(self.admins@).contains(login@),
    {
        contains_string(&self.admins, login)
    }

    /// Routes one chat message: its first word is looked up in the command
    /// table, then admission decides.
    pub fn handle_chat(&self, cooldown_active: bool, sender: &Sender, text: &str) -> (r: Dispatch)
        ensures
            r == dispatch_of(
                cooldown_active,
                self.mod_only,
                sender.is_owner,
                sender.is_moderator,
                views(self.admins@).contains(sender.login@),
                command_of(self.commands, first_word(text@)),
            ),
    {
        let ignore = Dispatch { route: Route::Ignore, arm_cooldown: false };
        if cooldown_active {
            return ignore;
        }
        let admin = self.is_admin(&sender.login);
        if self.mod_only && !(sender.is_owner || sender.is_moderator || admin) {
            return ignore;
        }
        let word = first_token(text);
        let cmd = self.commands.get_command(&word);
        match cmd {
            Command::Unknown => ignore,
            Command::Stats | Command::Battery => Dispatch {
                route: Route::ReadOnly(cmd),
                arm_cooldown: true,
            },
            _ => {
                if sender.is_owner || admin {
                    Dispatch { route: Route::Action(cmd), arm_cooldown: true }
                } else {
                    Dispatch { route: Route::Ignore, arm_cooldown: true }
                }
            },
        }
    }
}

/// The token without its `oauth:` prefix, where it has one.
pub open spec fn strip_oauth(s: Seq<char>) -> Seq<char> {
    if s.len() >= 6 && s.subrange(0, 6) == "oauth:"@ {
        s.subrange(6, s.len() as int)
    } else {
        s
    }
}

/// The chat token as the transport wants it: any `oauth:` prefix removed.
pub fn oauth_token(token: &str) -> (r: String)
    ensures
        r@ == strip_oauth(token@),
{
    proof {
        reveal_strlit("oauth:");
    }
    let n = token.unicode_len();
    if n >= 6 {
        let head = String::from_str(token.substring_char(0, 6));
        let prefix = String::from_str("oauth:");
        if head == prefix {
            return String::from_str(token.substring_char(6, n));
        }
    }
    String::from_str(token)
}

/// An unknown command never reaches a handler and never starts the cooldown,
/// whoever sends it.
pub proof fn lemma_unknown_is_dropped(
    cooldown_active: bool,
    mod_only: bool,
    owner: bool,
    moderator: bool,
    admin: bool,
)
    ensures
        dispatch_of(cooldown_active, mod_only, owner, moderator, admin, Command::Unknown)
            == (Dispatch { route: Route::Ignore, arm_cooldown: false }),
{
}

/// Only the owner or an admin reaches the action handlers.
pub proof fn lemma_actions_need_owner_or_admin(
    cooldown_active: bool,
    mod_only: bool,
    owner: bool,
    moderator: bool,
    admin: bool,
    cmd: Command,
)
    ensures
        dispatch_of(cooldown_active, mod_only, owner, moderator, admin, cmd).route is Action
            ==> owner || admin,
{
}

} // verus!
