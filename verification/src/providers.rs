//! The paste sites and attachments a log can be posted through: recognising
//! a log link in a message, and where the log text is then downloaded from.
use vstd::prelude::*;
use vstd::string::StringExecFns;

use crate::embed::opt_view;
use crate::regex_match::{first_group_capture, group_capture, regex_all_captures, regex_find, regex_first_match};
use crate::utils::{find_attachment, has_content_type_prefix, AttachmentInfo};

verus! {

/// What a log provider reads of a message.
#[derive(Debug)]
pub struct LogMessage {
    pub content: String,
    pub attachments: Vec<AttachmentInfo>,
}

/// Pastes on 0x0.st.
#[derive(Clone, Copy, Debug, PartialEq, Eq)]
pub struct _0x0;

/// Pastes on hst.sh.
#[derive(Clone, Copy, Debug, PartialEq, Eq)]
pub struct Haste;

/// Pastes on mclo.gs.
#[derive(Clone, Copy, Debug, PartialEq, Eq)]
pub struct MCLogs;

/// Pastes on paste.gg.
#[derive(Clone, Copy, Debug, PartialEq, Eq)]
pub struct PasteGG;

/// Pastes on pastebin.com.
#[derive(Clone, Copy, Debug, PartialEq, Eq)]
pub struct PasteBin;

/// Text files attached to the message.
#[derive(Clone, Copy, Debug, PartialEq, Eq)]
pub struct Attachment;

/// The link pattern of 0x0.st; the whole match is the paste's address.
pub const ZERO_X0_PATTERN: &'static str = "https://0x0\\.st/\\w*.\\w*";

/// The link pattern of hst.sh; the first group is the paste's key.
pub const HASTE_PATTERN: &'static str = "https://hst\\.sh(?:/raw)?/(\\w+(?:\\.\\w*)?)";

/// The link pattern of mclo.gs; the first group is the log's id.
pub const MCLOGS_PATTERN: &'static str = "https://mclo\\.gs/(\\w+)";

/// The link pattern of paste.gg; the first group is the paste's id.
pub const PASTE_GG_PATTERN: &'static str = "https://paste.gg/p/\\w+/(\\w+)";

/// The link pattern of pastebin.com; the first group is the paste's key.
pub const PASTEBIN_PATTERN: &'static str = "https://pastebin\\.com(?:/raw)?/(\\w+)";

/// What the first capture group of `pattern` takes in `content`, going
/// through its matches in order.
pub open spec fn capture_1(pattern: Seq<char>, content: Seq<char>) -> Option<Seq<char>> {
    first_group_capture(regex_all_captures(pattern, content), 1)
}

/// The first capture group of the first match of `pattern` in `string`.
pub fn get_first_capture(pattern: &str, string: &str) -> (r: Option<String>)
    ensures
        opt_view(r) == capture_1(pattern@, string@),
{
    group_capture(pattern, string, 1)
}

/// A provider that the bot looks for, in the order it looks.
#[derive(Clone, Copy, Debug, PartialEq, Eq)]
pub enum Provider {
    _0x0st(_0x0),
    Haste(Haste),
    MCLogs(MCLogs),
    PasteGG(PasteGG),
    PasteBin(PasteBin),
}

/// What the provider finds in a message text: the paste's address for
/// 0x0.st, the paste's key or id for the others.
pub open spec fn provider_match(p: Provider, content: Seq<char>) -> Option<Seq<char>> {
    match p {
        Provider::_0x0st(_) => regex_first_match(ZERO_X0_PATTERN@, content),
        Provider::Haste(_) => capture_1(HASTE_PATTERN@, content),
        Provider::MCLogs(_) => capture_1(MCLOGS_PATTERN@, content),
        Provider::PasteGG(_) => capture_1(PASTE_GG_PATTERN@, content),
        Provider::PasteBin(_) => capture_1(PASTEBIN_PATTERN@, content),
    }
}

/// The address the log text is downloaded from, given what the provider
/// found; paste.gg first lists the paste's files, so it has none.
pub open spec fn provider_raw_url(p: Provider, found: Seq<char>) -> Option<Seq<char>> {
    match p {
        Provider::_0x0st(_) => Some(found),
        Provider::Haste(_) => Some("https://hst.sh"@ + "/raw"@ + "/"@ + found),
        Provider::MCLogs(_) => Some("https://api.mclo.gs/1"@ + "/raw"@ + "/"@ + found),
        Provider::PasteGG(_) => None,
        Provider::PasteBin(_) => Some("https://pastebin.com"@ + "/raw"@ + "/"@ + found),
    }
}

/// The providers in the order they are tried.
pub open spec fn provider_order() -> Seq<Provider> {
    seq![
        Provider::_0x0st(_0x0),
        Provider::Haste(Haste),
        Provider::MCLogs(MCLogs),
        Provider::PasteBin(PasteBin),
        Provider::PasteGG(PasteGG),
    ]
}

/// `prefix + "/raw/" + found` as a new string.
fn raw_url(prefix: &str, found: &str) -> (r: String)
    ensures
        r@ == prefix@ + "/raw"@ + "/"@ + found@,
{
    let mut url = String::from_str(prefix);
    url.append("/raw");
    url.append("/");
    url.append(found);
    url
}

impl Provider {
    /// The providers, in the order they are tried.
    pub fn iterator() -> (r: Vec<Provider>)
        ensures
            r@ == provider_order(),
    {
        let r = vec![
            Provider::_0x0st(_0x0),
            Provider::Haste(Haste),
            Provider::MCLogs(MCLogs),
            Provider::PasteBin(PasteBin),
            Provider::PasteGG(PasteGG),
        ];
        assert(r@ =~= provider_order());
        r
    }

    /// What this provider recognises in the message, if anything.
    pub fn find_match(&self, message: &LogMessage) -> (r: Option<String>)
        ensures
            opt_view(r) == provider_match(*self, message.content@),
    {
        let content = message.content.as_str();
        match self {
            Provider::_0x0st(_) => regex_find(ZERO_X0_PATTERN, content),
            Provider::Haste(_) => get_first_capture(HASTE_PATTERN, content),
            Provider::MCLogs(_) => get_first_capture(MCLOGS_PATTERN, content),
            Provider::PasteGG(_) => get_first_capture(PASTE_GG_PATTERN, content),
            Provider::PasteBin(_) => get_first_capture(PASTEBIN_PATTERN, content),
        }
    }

    /// The address to download the log from, given what was found.
    pub fn raw_url(&self, found: &str) -> (r: Option<String>)
        ensures
            opt_view(r) == provider_raw_url(*self, found@),
    {
        match self {
            Provider::_0x0st(_) => Some(String::from_str(found)),
            Provider::Haste(_) => Some(raw_url("https://hst.sh", found)),
            Provider::MCLogs(_) => Some(raw_url("https://api.mclo.gs/1", found)),
            Provider::PasteGG(_) => None,
            Provider::PasteBin(_) => Some(raw_url("https://pastebin.com", found)),
        }
    }
}

/// The position of the first entry that holds a value.
pub open spec fn first_some(matches: Seq<Option<Seq<char>>>) -> Option<int>
    decreases matches.len(),
{
    if matches.len() == 0 {
        None
    } else if matches[0] is Some {
        Some(0)
    } else {
        match first_some(matches.drop_first()) {
            Some(i) => Some(i + 1),
            None => None,
        }
    }
}

proof fn lemma_first_some(matches: Seq<Option<Seq<char>>>)
    ensures
        match first_some(matches) {
            Some(i) => 0 <= i < matches.len() && matches[i] is Some && forall|j: int|
                0 <= j < i ==> matches[j] is None,
            None => forall|j: int| 0 <= j < matches.len() ==> matches[j] is None,
        },
    decreases matches.len(),
{
    if matches.len() > 0 && matches[0] is None {
        lemma_first_some(matches.drop_first());
        assert forall|j: int| 0 < j < matches.len() implies matches[j] == matches.drop_first()[j - 1] by {}
    }
}

/// The views of a list of optional strings.
pub open spec fn opt_views(v: Seq<Option<String>>) -> Seq<Option<Seq<char>>> {
    v.map_values(|o: Option<String>| opt_view(o))
}

/// The position of the first entry of `matches` that holds a value.
pub fn first_found(matches: &Vec<Option<String>>) -> (r: Option<usize>)
    ensures
        match r {
            Some(i) => first_some(opt_views(matches@)) == Some(i as int),
            None => first_some(opt_views(matches@)) is None,
        },
{
    let ghost all = opt_views(matches@);
    let mut i: usize = matches.len();
    let mut best: Option<usize> = None;
    // scan from the back so that `best` is the first hit of the suffix
    while i > 0
        invariant
            i <= matches.len(),
            all == opt_views(matches@),
            match best {
                Some(b) => first_some(all.skip(i as int)) == Some(b - i),
                None => first_some(all.skip(i as int)) is None,
            },
            best matches Some(b) ==> i <= b < matches.len(),
        decreases i,
    {
        i -= 1;
        let ghost suffix = all.skip(i as int);
        assert(suffix.drop_first() =~= all.skip(i + 1));
        if matches[i].is_some() {
            best = Some(i);
        }
    }
    assert(all.skip(0) =~= all);
    best
}

/// The first provider, in the order they are tried, that recognises the
/// message text, with what it found.
pub open spec fn log_source(content: Seq<char>) -> Option<(Provider, Seq<char>)> {
    let found = provider_order().map_values(|p: Provider| provider_match(p, content));
    match first_some(found) {
        Some(i) => Some((provider_order()[i], found[i]->0)),
        None => None,
    }
}

/// The first provider, in the order they are tried, that recognises the
/// message, with what it found.
pub fn find_log_source(message: &LogMessage) -> (r: Option<(Provider, String)>)
    ensures
        match r {
            Some((p, found)) => log_source(message.content@) == Some((p, found@)),
            None => log_source(message.content@) is None,
        },
{
    let providers = Provider::iterator();
    let mut matches: Vec<Option<String>> = Vec::new();
    let mut i: usize = 0;
    while i < providers.len()
        invariant
            i <= providers.len(),
            providers@ == provider_order(),
            opt_views(matches@) == provider_order().take(i as int).map_values(
                |p: Provider| provider_match(p, message.content@),
            ),
        decreases providers.len() - i,
    {
        let m = providers[i].find_match(message);
        let ghost before = matches@;
        matches.push(m);
        assert(opt_views(matches@) =~= opt_views(before).push(opt_view(m)));
        assert(provider_order().take(i + 1).map_values(
            |p: Provider| provider_match(p, message.content@),
        ) =~= provider_order().take(i as int).map_values(
            |p: Provider| provider_match(p, message.content@),
        ).push(provider_match(providers@[i as int], message.content@)));
        i += 1;
    }
    assert(provider_order().take(5) =~= provider_order());
    match first_found(&matches) {
        Some(k) => {
            proof {
                lemma_first_some(opt_views(matches@));
            }
            match &matches[k] {
                Some(found) => Some((providers[k], found.clone())),
                None => None,
            }
        },
        None => None,
    }
}

impl Attachment {
    /// The address of the first text attachment of the message.
    pub fn find_match(&self, message: &LogMessage) -> (r: Option<String>)
        ensures
            match r {
                Some(url) => exists|i: int|
                    0 <= i < message.attachments@.len() && url@ == message.attachments@[i].url@
                        && has_content_type_prefix(message.attachments@[i], "text/"@) && forall|j: int|
                        0 <= j < i ==> !has_content_type_prefix(
                            #[trigger] message.attachments@[j],
                            "text/"@,
                        ),
                None => forall|j: int|
                    0 <= j < message.attachments@.len() ==> !has_content_type_prefix(
                        #[trigger] message.attachments@[j],
                        "text/"@,
                    ),
            },
    {
        match find_attachment(&message.attachments, "text/") {
            Some(i) => Some(message.attachments[i].url.clone()),
            None => None,
        }
    }
}

} // verus!
