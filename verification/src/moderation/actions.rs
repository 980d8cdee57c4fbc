//! Moderation actions (ban, kick, time-out): the fields and texts of their
//! log entry, reply and direct message.
use vstd::prelude::*;
use vstd::string::StringExecFns;

use crate::text::{append_decimal, decimal};

verus! {

/// The fields of a log entry: name, value, inline.
pub type Fields = Vec<(String, String, bool)>;

/// The mathematical value of a list of fields.
pub open spec fn fields_view(f: Seq<(String, String, bool)>) -> Seq<(Seq<char>, Seq<char>, bool)> {
    f.map_values(|x: (String, String, bool)| (x.0@, x.1@, x.2))
}

/// The mathematical value of an optional list of fields.
pub open spec fn opt_fields_view(f: Option<Fields>) -> Option<Seq<(Seq<char>, Seq<char>, bool)>> {
    match f {
        Some(f) => Some(fields_view(f@)),
        None => None,
    }
}

/// What each kind of moderation action tells about itself.
pub trait ModActionInfo {
    /// The fields this action adds to the log entry.
    spec fn action_fields(&self) -> Option<Seq<(Seq<char>, Seq<char>, bool)>>;

    /// The past-tense verb of this action, such as `Banned`.
    spec fn verb(&self) -> Seq<char>;

    fn to_fields(&self) -> (r: Option<Fields>)
        ensures
            opt_fields_view(r) == self.action_fields(),
    ;

    fn description(&self) -> (r: String)
        ensures
            r@ == self.verb(),
    ;
}

/// A moderation action with its optional reason.
pub struct ModAction<T: ModActionInfo> {
    pub reason: Option<String>,
    pub data: T,
}

/// What handling an action does after performing it.
#[derive(Clone, Copy, Debug, PartialEq, Eq)]
pub struct HandleSteps {
    /// Acknowledge the command privately.
    pub ephemeral: bool,
    /// Send the user a direct message.
    pub dm_user: bool,
    /// Reply in the channel.
    pub reply: bool,
}

/// The steps of handling an action: quiet commands are acknowledged
/// privately, the user is messaged when asked for, the reply is made when
/// the caller wants one; an unset option counts as `false`.
pub fn handle_steps(quiet: Option<bool>, dm_user: Option<bool>, handle_reply: bool) -> (r: HandleSteps)
    ensures
        r.ephemeral == (quiet == Some(true)),
        r.dm_user == (dm_user == Some(true)),
        r.reply == handle_reply,
{
    HandleSteps {
        ephemeral: match quiet {
            Some(q) => q,
            None => false,
        },
        dm_user: match dm_user {
            Some(d) => d,
            None => false,
        },
        reply: handle_reply,
    }
}

impl<T: ModActionInfo> ModAction<T> {
    /// All fields of the log entry: the reason first, if there is one, then
    /// the action's own.
    pub open spec fn all_fields(&self) -> Seq<(Seq<char>, Seq<char>, bool)> {
        let reason = match self.reason {
            Some(r) => seq![("Reason:"@, r@, false)],
            None => Seq::empty(),
        };
        reason + match self.data.action_fields() {
            Some(f) => f,
            None => Seq::empty(),
        }
    }

    pub fn get_all_fields(&self) -> (r: Fields)
        ensures
            fields_view(r@) == self.all_fields(),
    {
        let mut fields: Fields = Vec::new();
        match &self.reason {
            Some(reason) => fields.push((String::from_str("Reason:"), reason.clone(), false)),
            None => {},
        }
        let ghost head = fields@;
        assert(fields_view(head) =~= match self.reason {
            Some(r) => seq![("Reason:"@, r@, false)],
            None => Seq::empty(),
        });
        match self.data.to_fields() {
            Some(mut action_fields) => {
                let ghost tail = action_fields@;
                fields.append(&mut action_fields);
                assert(fields_view(fields@) =~= fields_view(head) + fields_view(tail));
            },
            None => {
                assert(fields_view(fields@) =~= fields_view(head) + Seq::empty());
            },
        }
        fields
    }

    /// The title of the log entry: `<verb> user!`.
    pub fn log_title(&self) -> (r: String)
        ensures
            r@ == self.data.verb() + " user!"@,
    {
        let mut t = self.data.description();
        t.append(" user!");
        t
    }

    /// The reason passed on to the action itself: the reason, or nothing.
    pub fn actual_reason(&self) -> (r: String)
        ensures
            r@ == match self.reason {
                Some(x) => x@,
                None => Seq::empty(),
            },
    {
        match &self.reason {
            Some(r) => r.clone(),
            None => String::new(),
        }
    }

    /// The public reply: `<verb> <user name>!`, noting a direct message
    /// when one was sent.
    pub fn reply_text(&self, user_name: &str, dm_user: Option<bool>) -> (r: String)
        ensures
            r@ == self.data.verb() + " "@ + user_name@ + "!"@ + if dm_user == Some(true) {
                " (user notified with direct message)"@
            } else {
                Seq::empty()
            },
    {
        let mut resp = self.data.description();
        resp.append(" ");
        resp.append(user_name);
        resp.append("!");
        let dm = match dm_user {
            Some(d) => d,
            None => false,
        };
        if dm {
            resp.append(" (user notified with direct message)");
        }
        resp
    }

    /// The title of the direct message: `<verb> from <server name>!`.
    pub fn dm_title(&self, guild_name: &str) -> (r: String)
        ensures
            r@ == self.data.verb() + " from "@ + guild_name@ + "!"@,
    {
        let mut t = self.data.description();
        t.append(" from ");
        t.append(guild_name);
        t.append("!");
        t
    }

    /// The text of the direct message: `Reason: <reason>`, if there is a reason.
    pub fn dm_description(&self) -> (r: Option<String>)
        ensures
            match self.reason {
                Some(x) => r matches Some(d) && d@ == "Reason: "@ + x@,
                None => r is None,
            },
    {
        match &self.reason {
            Some(reason) => {
                let mut d = String::from_str("Reason: ");
                d.append(reason.as_str());
                Some(d)
            },
            None => None,
        }
    }
}

/// A ban, purging the user's messages of the last days.
pub struct Ban {
    pub purge_messages_days: u8,
}

impl ModActionInfo for Ban {
    open spec fn action_fields(&self) -> Option<Seq<(Seq<char>, Seq<char>, bool)>> {
        Some(seq![("Purged messages:"@, "Last "@ + decimal(self.purge_messages_days as nat) + " day(s)"@, false)])
    }

    open spec fn verb(&self) -> Seq<char> {
        "Banned"@
    }

    fn to_fields(&self) -> (r: Option<Fields>) {
        let mut value = String::from_str("Last ");
        append_decimal(&mut value, self.purge_messages_days as u128);
        value.append(" day(s)");
        let fields = vec![(String::from_str("Purged messages:"), value, false)];
        assert(fields_view(fields@) =~= self.action_fields()->0);
        Some(fields)
    }

    fn description(&self) -> (r: String) {
        String::from_str("Banned")
    }
}

/// A time-out until a moment, given as the text the bot shows for it.
pub struct Timeout {
    pub time_until: String,
}

impl ModActionInfo for Timeout {
    open spec fn action_fields(&self) -> Option<Seq<(Seq<char>, Seq<char>, bool)>> {
        Some(seq![("Timed out until:"@, self.time_until@, false)])
    }

    open spec fn verb(&self) -> Seq<char> {
        "Timed out"@
    }

    fn to_fields(&self) -> (r: Option<Fields>) {
        let fields = vec![(String::from_str("Timed out until:"), self.time_until.clone(), false)];
        assert(fields_view(fields@) =~= self.action_fields()->0);
        Some(fields)
    }

    fn description(&self) -> (r: String) {
        String::from_str("Timed out")
    }
}

/// A kick.
pub struct Kick {}

impl ModActionInfo for Kick {
    open spec fn action_fields(&self) -> Option<Seq<(Seq<char>, Seq<char>, bool)>> {
        None
    }

    open spec fn verb(&self) -> Seq<char> {
        "Kicked"@
    }

    fn to_fields(&self) -> (r: Option<Fields>) {
        None
    }

    fn description(&self) -> (r: String) {
        String::from_str("Kicked")
    }
}

} // verus!
