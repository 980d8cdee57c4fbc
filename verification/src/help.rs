//! The help menu: the commands it lists, in name order, and its embeds.
use vstd::prelude::*;
use vstd::string::StringExecFns;

use crate::consts::Colors;
use crate::embed::{empty_embed, opt_view, EmbedModel, EmbedSpec, FieldModel};
use crate::text::{
    append_chars, ascii_lowercase_chars, chars_eq, chars_lt, chars_of, strip_leading, strip_leading_chars,
    to_ascii_lowercase, trim, trim_chars, lemma_text_lt_total, lemma_text_lt_transitive, text_lt};

verus! {

/// What the help menu reads of a command.
#[derive(Debug)]
pub struct CommandInfo {
    pub name: String,
    pub description: Option<String>,
    pub help_text: Option<String>,
    pub hide_in_help: bool,
    pub has_prefix_action: bool,
    pub has_slash_action: bool,
    pub subcommands: Vec<CommandInfo>,
}

/// One line of the help menu.
#[derive(Debug)]
pub struct HelpEntry {
    pub name: String,
    pub description: String,
    pub help_text: Option<String>,
}

/// The mathematical value of a help entry.
pub ghost struct EntryModel {
    pub name: Seq<char>,
    pub description: Seq<char>,
    pub help_text: Option<Seq<char>>,
}

impl View for HelpEntry {
    type V = EntryModel;

    open spec fn view(&self) -> EntryModel {
        EntryModel { name: self.name@, description: self.description@, help_text: opt_view(self.help_text) }
    }
}

/// The views of a list of help entries.
pub open spec fn entries_view(v: Seq<HelpEntry>) -> Seq<EntryModel> {
    v.map_values(|e: HelpEntry| e@)
}

/// The full name of a command: its parent's full name, a space, and its own
/// name; or its own name at the top level.
pub open spec fn full_name(parent: Option<Seq<char>>, name: Seq<char>) -> Seq<char> {
    match parent {
        Some(p) => p + " "@ + name,
        None => name,
    }
}

/// The description shown for a command.
pub open spec fn shown_description(d: Option<String>) -> Seq<char> {
    match d {
        Some(d) => d@,
        None => "No description provided."@,
    }
}

/// The help entries of a command and its subcommands, in tree order: a
/// hidden command contributes nothing (nor do its subcommands); a command
/// that can be invoked contributes its own entry before those of its
/// subcommands.
pub open spec fn command_entries(c: CommandInfo, parent: Option<Seq<char>>) -> Seq<EntryModel>
    decreases c,
{
    if c.hide_in_help {
        Seq::empty()
    } else {
        let full = full_name(parent, c.name@);
        let own = if c.has_prefix_action || c.has_slash_action {
            seq![EntryModel { name: full, description: shown_description(c.description), help_text: opt_view(c.help_text) }]
        } else {
            Seq::empty()
        };
        proof {
            assert(decreases_to!(c => c.subcommands));
            vstd::std_specs::vec::axiom_vec_decreases_to_view(c.subcommands);
        }
        own + commands_entries(c.subcommands@, Some(full))
    }
}

/// The help entries of a list of commands, each command's after those of
/// the commands before it.
pub open spec fn commands_entries(cs: Seq<CommandInfo>, parent: Option<Seq<char>>) -> Seq<EntryModel>
    decreases cs,
{
    if cs.len() == 0 {
        Seq::empty()
    } else {
        commands_entries(cs.subrange(0, cs.len() - 1), parent) + command_entries(cs[cs.len() - 1], parent)
    }
}

proof fn lemma_commands_entries_step(cs: Seq<CommandInfo>, i: int, parent: Option<Seq<char>>)
    requires
        0 <= i < cs.len(),
    ensures
        commands_entries(cs.take(i + 1), parent) == commands_entries(cs.take(i), parent)
            + command_entries(cs[i], parent),
{
    assert(cs.take(i + 1).subrange(0, i) =~= cs.take(i));
}

/// The view of an optional text.
pub open spec fn opt_str_view(s: Option<&str>) -> Option<Seq<char>> {
    match s {
        Some(s) => Some(s@),
        None => None,
    }
}

/// Appends to `entries` the help entries of `commands`, whose parent has
/// the full name `parent`.
fn collect_help_entries_recursive(
    commands: &Vec<CommandInfo>,
    parent: Option<&str>,
    entries: &mut Vec<HelpEntry>,
)
    ensures
        entries_view(final(entries)@) == entries_view(old(entries)@) + commands_entries(
            commands@,
            opt_str_view(parent),
        ),
    decreases commands@,
{
    let ghost start = entries_view(entries@);
    let ghost pv = opt_str_view(parent);
    let mut i: usize = 0;
    while i < commands.len()
        invariant
            i <= commands.len(),
            pv == opt_str_view(parent),
            entries_view(entries@) == start + commands_entries(commands@.take(i as int), pv),
        decreases commands.len() - i,
    {
        proof {
            lemma_commands_entries_step(commands@, i as int, pv);
        }
        let command = &commands[i];
        if !command.hide_in_help {
            let full_name = match parent {
                Some(parent_name) => {
                    let mut n = String::from_str(parent_name);
                    n.append(" ");
                    n.append(command.name.as_str());
                    n
                },
                None => command.name.clone(),
            };
            let ghost before = entries_view(entries@);
            if command.has_prefix_action || command.has_slash_action {
                let description = match &command.description {
                    Some(d) => d.clone(),
                    None => String::from_str("No description provided."),
                };
                let help_text = match &command.help_text {
                    Some(h) => Some(h.clone()),
                    None => None,
                };
                let entry = HelpEntry { name: full_name.clone(), description, help_text };
                let ghost old_entries = entries@;
                entries.push(entry);
                assert(entries_view(entries@) =~= entries_view(old_entries).push(entry@));
            }
            let ghost mid = entries_view(entries@);
            proof {
                assert(decreases_to!(commands@ => commands@[i as int]));
                assert(decreases_to!(commands@[i as int] => commands@[i as int].subcommands));
                vstd::std_specs::vec::axiom_vec_decreases_to_view(commands@[i as int].subcommands);
            }
            collect_help_entries_recursive(&command.subcommands, Some(full_name.as_str()), entries);
            proof {
                let own = if command.has_prefix_action || command.has_slash_action {
                    seq![EntryModel { name: full_name@, description: shown_description(command.description), help_text: opt_view(command.help_text) }]
                } else {
                    Seq::empty()
                };
                assert(mid =~= before + own);
                assert(command_entries(*command, pv) == own + commands_entries(command.subcommands@, Some(full_name@)));
                assert(entries_view(entries@) =~= before + command_entries(*command, pv));
            }
        }
        i += 1;
    }
    assert(commands@.take(commands.len() as int) =~= commands@);
}

/// `e` inserted into `s` after the last entry whose name does not come
/// after `e`'s: one step of a stable insertion sort by name.
pub open spec fn insert_by_name(s: Seq<EntryModel>, e: EntryModel) -> Seq<EntryModel>
    decreases s.len(),
{
    if s.len() > 0 && text_lt(e.name, s.last().name) {
        insert_by_name(s.drop_last(), e).push(s.last())
    } else {
        s.push(e)
    }
}

/// `s` sorted by name, entries with equal names kept in their order (the
/// result of a stable sort by name).
pub open spec fn sort_by_name(s: Seq<EntryModel>) -> Seq<EntryModel>
    decreases s.len(),
{
    if s.len() == 0 {
        s
    } else {
        insert_by_name(sort_by_name(s.drop_last()), s.last())
    }
}

/// The entries are in name order: no entry's name comes before an earlier one's.
pub open spec fn sorted_by_name(s: Seq<EntryModel>) -> bool {
    forall|i: int, j: int| 0 <= i < j < s.len() ==> !text_lt(#[trigger] s[j].name, #[trigger] s[i].name)
}

proof fn lemma_insert_at(s: Seq<EntryModel>, e: EntryModel, j: int)
    requires
        0 <= j <= s.len(),
        forall|m: int| j <= m < s.len() ==> text_lt(e.name, #[trigger] s[m].name),
        j == 0 || !text_lt(e.name, s[j - 1].name),
    ensures
        insert_by_name(s, e) == s.insert(j, e),
    decreases s.len(),
{
    if j < s.len() {
        assert(text_lt(e.name, s.last().name));
        lemma_insert_at(s.drop_last(), e, j);
        assert(s.drop_last().insert(j, e).push(s.last()) =~= s.insert(j, e));
    } else {
        assert(s.push(e) =~= s.insert(j, e));
    }
}

/// Inserting into a list in name order keeps it in name order.
pub proof fn lemma_insert_keeps_order(s: Seq<EntryModel>, e: EntryModel)
    requires
        sorted_by_name(s),
    ensures
        sorted_by_name(insert_by_name(s, e)),
        insert_by_name(s, e).len() == s.len() + 1,
    decreases s.len(),
{
    if s.len() > 0 && text_lt(e.name, s.last().name) {
        let t = s.drop_last();
        assert(sorted_by_name(t));
        lemma_insert_keeps_order(t, e);
        let u = insert_by_name(t, e);
        // every entry of u is e or an entry of t, and none comes after s.last()
        lemma_insert_members(t, e);
        assert forall|i: int, j: int| 0 <= i < j < u.push(s.last()).len() implies !text_lt(
            #[trigger] u.push(s.last())[j].name,
            #[trigger] u.push(s.last())[i].name,
        ) by {
            if j == u.len() {
                let x = u[i];
                if x == e {
                    lemma_no_lt_both_ways(e.name, s.last().name);
                } else {
                    let k = choose|k: int| 0 <= k < t.len() && t[k] == x;
                    assert(s[k] == x);
                    assert(!text_lt(s[s.len() - 1].name, s[k].name));
                }
            }
        }
    } else {
        assert forall|i: int, j: int| 0 <= i < j < s.push(e).len() implies !text_lt(
            #[trigger] s.push(e)[j].name,
            #[trigger] s.push(e)[i].name,
        ) by {
            if j == s.len() {
                assert(!text_lt(e.name, s.last().name));
                if i < s.len() - 1 {
                    assert(!text_lt(s[s.len() - 1].name, s[i].name));
                    lemma_text_lt_total(s[i].name, s.last().name);
                    if text_lt(e.name, s[i].name) {
                        lemma_text_lt_total(e.name, s.last().name);
                        if e.name == s.last().name {
                        } else if text_lt(s.last().name, e.name) {
                            lemma_text_lt_transitive(s.last().name, e.name, s[i].name);
                        }
                    }
                }
            }
        }
    }
}

proof fn lemma_no_lt_both_ways(a: Seq<char>, b: Seq<char>)
    requires
        text_lt(a, b),
    ensures
        !text_lt(b, a),
{
    if text_lt(b, a) {
        lemma_text_lt_transitive(a, b, a);
        crate::text::lemma_text_lt_irreflexive(a);
    }
}

proof fn lemma_insert_members(s: Seq<EntryModel>, e: EntryModel)
    ensures
        forall|i: int| 0 <= i < insert_by_name(s, e).len() ==> (#[trigger] insert_by_name(s, e)[i] == e
            || exists|k: int| 0 <= k < s.len() && s[k] == insert_by_name(s, e)[i]),
        insert_by_name(s, e).len() == s.len() + 1,
    decreases s.len(),
{
    if s.len() > 0 && text_lt(e.name, s.last().name) {
        lemma_insert_members(s.drop_last(), e);
        let u = insert_by_name(s.drop_last(), e);
        assert forall|i: int| 0 <= i < u.push(s.last()).len() implies (#[trigger] u.push(s.last())[i] == e
            || exists|k: int| 0 <= k < s.len() && s[k] == u.push(s.last())[i]) by {
            if i == u.len() {
                assert(s[s.len() - 1] == u.push(s.last())[i]);
            } else {
                if u[i] != e {
                    let k = choose|k: int| 0 <= k < s.drop_last().len() && s.drop_last()[k] == u[i];
                    assert(s[k] == u.push(s.last())[i]);
                }
            }
        }
    } else {
        assert forall|i: int| 0 <= i < s.push(e).len() implies (#[trigger] s.push(e)[i] == e
            || exists|k: int| 0 <= k < s.len() && s[k] == s.push(e)[i]) by {
            if i < s.len() {
                assert(s[i] == s.push(e)[i]);
            }
        }
    }
}

/// The help menu lists its entries in name order.
pub proof fn law_help_entries_sorted(s: Seq<EntryModel>)
    ensures
        sorted_by_name(sort_by_name(s)),
        sort_by_name(s).len() == s.len(),
    decreases s.len(),
{
    if s.len() > 0 {
        law_help_entries_sorted(s.drop_last());
        lemma_insert_keeps_order(sort_by_name(s.drop_last()), s.last());
    }
}

proof fn lemma_insert_multiset(s: Seq<EntryModel>, e: EntryModel)
    ensures
        insert_by_name(s, e).to_multiset() == s.to_multiset().insert(e),
    decreases s.len(),
{
    broadcast use vstd::seq_lib::to_multiset_build;
    broadcast use vstd::multiset::group_multiset_axioms;

    if s.len() > 0 && text_lt(e.name, s.last().name) {
        lemma_insert_multiset(s.drop_last(), e);
        assert(s.drop_last().push(s.last()) =~= s);
        assert(s.to_multiset() == s.drop_last().to_multiset().insert(s.last()));
        assert(insert_by_name(s, e).to_multiset() =~= s.to_multiset().insert(e));
    }
}

/// The help menu lists exactly the collected entries, each as often as it
/// was collected: sorting only reorders them.
pub proof fn law_help_sort_keeps_entries(s: Seq<EntryModel>)
    ensures
        sort_by_name(s).to_multiset() == s.to_multiset(),
    decreases s.len(),
{
    broadcast use vstd::seq_lib::to_multiset_build;

    if s.len() > 0 {
        law_help_sort_keeps_entries(s.drop_last());
        lemma_insert_multiset(sort_by_name(s.drop_last()), s.last());
        assert(s.drop_last().push(s.last()) =~= s);
    } else {
        assert(sort_by_name(s) =~= s);
    }
}

/// Inserts `e` into `sorted` after the last entry whose name does not come after `e`'s.
fn insert_entry(sorted: &mut Vec<HelpEntry>, e: HelpEntry)
    ensures
        entries_view(final(sorted)@) == insert_by_name(entries_view(old(sorted)@), e@),
{
    let key = chars_of(e.name.as_str());
    let ghost s = entries_view(sorted@);
    let mut j = sorted.len();
    while j > 0
        invariant
            j <= sorted.len(),
            s == entries_view(sorted@),
            key@ == e@.name,
            forall|m: int| j <= m < s.len() ==> text_lt(e@.name, #[trigger] s[m].name),
        ensures
            j == 0 || !text_lt(e@.name, s[j - 1].name),
            forall|m: int| j <= m < s.len() ==> text_lt(e@.name, #[trigger] s[m].name),
            j <= sorted.len(),
        decreases j,
    {
        let other = chars_of(sorted[j - 1].name.as_str());
        if !chars_lt(&key, &other) {
            break;
        }
        j -= 1;
    }
    proof {
        lemma_insert_at(s, e@, j as int);
    }
    let ghost before = sorted@;
    sorted.insert(j, e);
    assert(entries_view(sorted@) =~= entries_view(before).insert(j as int, e@));
}

/// Sorts the entries by name, keeping the order of entries with equal names.
fn sort_entries(entries: Vec<HelpEntry>) -> (r: Vec<HelpEntry>)
    ensures
        entries_view(r@) == sort_by_name(entries_view(entries@)),
{
    let ghost all = entries_view(entries@);
    let ghost n = entries@.len();
    let mut src = entries;
    let mut rev: Vec<HelpEntry> = Vec::new();
    while src.len() > 0
        invariant
            src@.len() + rev@.len() == n,
            entries_view(src@) == all.take(src@.len() as int),
            forall|k: int| 0 <= k < rev@.len() ==> #[trigger] rev@[k]@ == all[n - 1 - k],
            all.len() == n,
        decreases src.len(),
    {
        let ghost before = src@;
        let e = src.pop().unwrap();
        assert(entries_view(before)[before.len() - 1] == before[before.len() - 1]@);
        assert(e@ == all[src@.len() as int]);
        assert(entries_view(src@) =~= all.take(src@.len() as int));
        let ghost old_rev = rev@;
        rev.push(e);
        assert(forall|k: int| 0 <= k < old_rev.len() ==> rev@[k] == old_rev[k]);
    }
    let mut sorted: Vec<HelpEntry> = Vec::new();
    assert(entries_view(sorted@) =~= sort_by_name(all.take(0)));
    while rev.len() > 0
        invariant
            rev@.len() <= n,
            all.len() == n,
            forall|k: int| 0 <= k < rev@.len() ==> #[trigger] rev@[k]@ == all[n - 1 - k],
            entries_view(sorted@) == sort_by_name(all.take(n - rev@.len())),
        decreases rev.len(),
    {
        let e = rev.pop().unwrap();
        let ghost done = n - rev@.len() - 1;
        assert(e@ == all[done]);
        assert(all.take(done + 1).drop_last() =~= all.take(done));
        insert_entry(&mut sorted, e);
    }
    assert(all.take(n as int) =~= all);
    sorted
}

/// The help entries of all commands, in name order.
pub fn collect_help_entries(commands: &Vec<CommandInfo>) -> (r: Vec<HelpEntry>)
    ensures
        entries_view(r@) == sort_by_name(commands_entries(commands@, None)),
{
    let mut entries: Vec<HelpEntry> = Vec::new();
    collect_help_entries_recursive(commands, None, &mut entries);
    assert(entries_view(Seq::<HelpEntry>::empty()) =~= Seq::<EntryModel>::empty());
    assert(Seq::<EntryModel>::empty() + commands_entries(commands@, None) =~= commands_entries(commands@, None));
    sort_entries(entries)
}

/// The line of the help menu for one command.
pub open spec fn help_line(e: EntryModel) -> Seq<char> {
    "`/"@ + e.name + "` — "@ + e.description
}

/// The lines of the help menu, one per entry, joined by line breaks.
pub open spec fn help_listing(es: Seq<EntryModel>) -> Seq<char>
    decreases es.len(),
{
    if es.len() == 0 {
        Seq::empty()
    } else if es.len() == 1 {
        help_line(es[0])
    } else {
        help_listing(es.drop_last()) + "\n"@ + help_line(es.last())
    }
}

/// The help menu listing every command.
pub open spec fn all_commands_embed(es: Seq<EntryModel>) -> EmbedModel {
    EmbedModel {
        title: Some("Refraction Help"@),
        description: Some(
            if es.len() == 0 {
                "No commands are available."@
            } else {
                help_listing(es)
            },
        ),
        color: Some(Colors::Blue.rgb()),
        footer: Some("Use /help <command> for details about one command."@),
        ..empty_embed()
    }
}

/// The help menu listing every command.
pub fn build_all_commands_embed(entries: &Vec<HelpEntry>) -> (r: EmbedSpec)
    ensures
        r@ == all_commands_embed(entries_view(entries@)),
{
    let ghost es = entries_view(entries@);
    let description = if entries.len() == 0 {
        String::from_str("No commands are available.")
    } else {
        let mut d = String::new();
        let mut i: usize = 0;
        while i < entries.len()
            invariant
                i <= entries.len(),
                es == entries_view(entries@),
                d@ == help_listing(es.take(i as int)),
            decreases entries.len() - i,
        {
            assert(es.take(i + 1).drop_last() =~= es.take(i as int));
            if i > 0 {
                d.append("\n");
            }
            d.append("`/");
            d.append(entries[i].name.as_str());
            d.append("` — ");
            d.append(entries[i].description.as_str());
            proof {
                if i == 0 {
                    assert(d@ =~= help_line(es[0]));
                } else {
                    assert(d@ =~= help_listing(es.take(i as int)) + "\n"@ + help_line(es[i as int]));
                }
            }
            i += 1;
        }
        assert(es.take(entries.len() as int) =~= es);
        d
    };
    EmbedSpec::new().title(String::from_str("Refraction Help")).description(description).color(
        Colors::Blue.value(),
    ).footer(String::from_str("Use /help <command> for details about one command."))
}

/// The command name that a help query asks for: trimmed, without leading
/// slashes, ASCII lower-cased.
pub open spec fn normalized_query(query: Seq<char>) -> Seq<char> {
    to_ascii_lowercase(strip_leading(trim(query), '/'))
}

/// The entry whose name, ASCII lower-cased, is `key`: the first such one.
pub open spec fn entry_named(es: Seq<EntryModel>, key: Seq<char>) -> Option<int> {
    if exists|i: int| 0 <= i < es.len() && to_ascii_lowercase(#[trigger] es[i].name) == key {
        Some(choose|i: int|
            0 <= i < es.len() && to_ascii_lowercase(#[trigger] es[i].name) == key && forall|j: int|
                0 <= j < i ==> to_ascii_lowercase(#[trigger] es[j].name) != key)
    } else {
        None
    }
}

/// The help for one command, or a "not found" notice.
pub open spec fn single_command_embed(es: Seq<EntryModel>, query: Seq<char>) -> EmbedModel {
    let key = normalized_query(query);
    match entry_named(es, key) {
        Some(i) => {
            let e = es[i];
            let description = FieldModel { name: "Description"@, value: e.description, inline: false };
            EmbedModel {
                title: Some("📘 /"@ + e.name),
                color: Some(Colors::Blue.rgb()),
                fields: match e.help_text {
                    Some(h) => seq![description, FieldModel { name: "Details"@, value: h, inline: false }],
                    None => seq![description],
                },
                ..empty_embed()
            }
        },
        None => EmbedModel {
            title: Some("Command not found"@),
            description: Some(
                "I couldn't find a command named `/"@ + key + "`. Try `/help` to see all commands."@,
            ),
            color: Some(Colors::Red.rgb()),
            ..empty_embed()
        },
    }
}

/// The help for the command that `query` names, or a "not found" notice.
pub fn build_single_command_embed(entries: &Vec<HelpEntry>, query: &str) -> (r: EmbedSpec)
    ensures
        r@ == single_command_embed(entries_view(entries@), query@),
{
    let ghost es = entries_view(entries@);
    let q = chars_of(query);
    let trimmed = trim_chars(&q);
    let stripped = strip_leading_chars(&trimmed, '/');
    let key = ascii_lowercase_chars(&stripped);
    let mut i: usize = 0;
    while i < entries.len()
        invariant
            i <= entries.len(),
            es == entries_view(entries@),
            key@ == normalized_query(query@),
            forall|j: int| 0 <= j < i ==> to_ascii_lowercase(#[trigger] es[j].name) != key@,
        decreases entries.len() - i,
    {
        let name = chars_of(entries[i].name.as_str());
        let lower = ascii_lowercase_chars(&name);
        if chars_eq(&lower, &key) {
            proof {
                assert(to_ascii_lowercase(es[i as int].name) == key@);
                let k = choose|k: int|
                    0 <= k < es.len() && to_ascii_lowercase(#[trigger] es[k].name) == key@ && forall|j: int|
                        0 <= j < k ==> to_ascii_lowercase(#[trigger] es[j].name) != key@;
                assert(k == i) by {
                    if k > i {
                        assert(to_ascii_lowercase(es[i as int].name) != key@);
                    }
                }
            }
            let entry = &entries[i];
            let mut title = String::from_str("📘 /");
            title.append(entry.name.as_str());
            let mut e = EmbedSpec::new().title(title).color(Colors::Blue.value()).field(
                String::from_str("Description"),
                entry.description.clone(),
                false,
            );
            match &entry.help_text {
                Some(h) => {
                    e = e.field(String::from_str("Details"), h.clone(), false);
                },
                None => {},
            }
            assert(e@.fields =~= single_command_embed(es, query@).fields);
            return e;
        }
        i += 1;
    }
    let mut description = String::from_str("I couldn't find a command named `/");
    append_chars(&mut description, &key);
    description.append("`. Try `/help` to see all commands.");
    EmbedSpec::new().title(String::from_str("Command not found")).description(description).color(
        Colors::Red.value(),
    )
}

} // verus!
