//! The log-analysis reply: cleaning a downloaded log, gathering the issues
//! found in it, and the embed that reports them.
use vstd::prelude::*;
use vstd::string::StringExecFns;

use crate::consts::Colors;
use crate::text::{contains, occurs_at};
use crate::embed::{empty_embed, EmbedModel, EmbedSpec, FieldModel};
use crate::issues::{format_issue, issue_text, pair_view, AnalyzedLog, Issue, JavaVersion};

verus! {

/// `s` with every `\r\n` replaced by `\n`, scanning from the left
/// (`str::replace("\r\n", "\n")`).
pub open spec fn crlf_to_lf(s: Seq<char>) -> Seq<char>
    decreases s.len(),
{
    if s.len() >= 2 && s[0] == '\r' && s[1] == '\n' {
        seq!['\n'] + crlf_to_lf(s.skip(2))
    } else if s.len() >= 1 {
        seq![s[0]] + crlf_to_lf(s.drop_first())
    } else {
        s
    }
}

/// The log with Windows line endings turned into `\n`.
pub fn normalize_line_endings(log: &Vec<char>) -> (r: Vec<char>)
    ensures
        r@ == crlf_to_lf(log@),
{
    let mut out: Vec<char> = Vec::new();
    let mut i: usize = 0;
    assert(log@.skip(0) =~= log@);
    assert(out@ + crlf_to_lf(log@) =~= crlf_to_lf(log@));
    while i < log.len()
        invariant
            i <= log.len(),
            out@ + crlf_to_lf(log@.skip(i as int)) == crlf_to_lf(log@),
        decreases log.len() - i,
    {
        let ghost rest = log@.skip(i as int);
        if i + 1 < log.len() && log[i] == '\r' && log[i + 1] == '\n' {
            assert(rest.skip(2) =~= log@.skip(i + 2));
            assert(out@.push('\n') + crlf_to_lf(log@.skip(i + 2)) =~= out@ + crlf_to_lf(rest));
            out.push('\n');
            i += 2;
        } else {
            assert(rest.drop_first() =~= log@.skip(i + 1));
            assert(out@.push(log@[i as int]) + crlf_to_lf(log@.skip(i + 1)) =~= out@ + crlf_to_lf(
                rest,
            ));
            out.push(log[i]);
            i += 1;
        }
    }
    assert(log@.skip(log.len() as int) =~= Seq::<char>::empty());
    assert(out@ + crlf_to_lf(Seq::<char>::empty()) =~= out@);
    out
}

/// A Windows line ending.
pub open spec fn crlf() -> Seq<char> {
    seq!['\r', '\n']
}

/// Replacing line endings leaves a log without `\r\n` unchanged.
pub proof fn law_normalize_keeps_plain_log(s: Seq<char>)
    requires
        !contains(s, crlf()),
    ensures
        crlf_to_lf(s) == s,
    decreases s.len(),
{
    if s.len() >= 1 {
        if s.len() >= 2 && s[0] == '\r' && s[1] == '\n' {
            assert(s.subrange(0, 2) =~= crlf());
            assert(occurs_at(s, crlf(), 0));
        }
        assert forall|i: int| !#[trigger] occurs_at(s.drop_first(), crlf(), i) by {
            if occurs_at(s.drop_first(), crlf(), i) {
                assert(s.subrange(i + 1, i + 3) =~= s.drop_first().subrange(i, i + 2));
                assert(occurs_at(s, crlf(), i + 1));
            }
        }
        law_normalize_keeps_plain_log(s.drop_first());
        assert(seq![s[0]] + s.drop_first() =~= s);
    }
}

/// The texts of the issues, in order, leaving out the issues the bot does not report.
pub open spec fn issue_texts(issues: Seq<Issue>, recommended: Option<JavaVersion>) -> Seq<(Seq<char>, Seq<char>)>
    decreases issues.len(),
{
    if issues.len() == 0 {
        Seq::empty()
    } else {
        let rest = issue_texts(issues.drop_last(), recommended);
        match issue_text(issues.last(), recommended) {
            Some(t) => rest.push(t),
            None => rest,
        }
    }
}

/// The issues reported for a log: those of the analysis (none when the
/// analyzer could not read the log), then the outdated-launcher issue.
pub open spec fn found_issues(analyzed: Option<AnalyzedLog>, outdated: Option<(Seq<char>, Seq<char>)>) -> Seq<(Seq<char>, Seq<char>)> {
    let from_analysis = match analyzed {
        Some(a) => issue_texts(a.issues@, a.recommended_java_version),
        None => Seq::empty(),
    };
    match outdated {
        Some(o) => from_analysis.push(o),
        None => from_analysis,
    }
}

/// The number of issues other than `OutdatedLauncher`.
pub open spec fn reportable_count(issues: Seq<Issue>) -> nat
    decreases issues.len(),
{
    if issues.len() == 0 {
        0
    } else {
        reportable_count(issues.drop_last()) + if issues.last() is OutdatedLauncher {
            0nat
        } else {
            1nat
        }
    }
}

/// Every issue the analyzer finds is reported once, in order, except the
/// offline outdated-launcher issue, which the networked check replaces.
pub proof fn law_each_issue_reported_once(issues: Seq<Issue>, recommended: Option<JavaVersion>)
    ensures
        issue_texts(issues, recommended).len() == reportable_count(issues),
    decreases issues.len(),
{
    if issues.len() > 0 {
        law_each_issue_reported_once(issues.drop_last(), recommended);
    }
}

/// The views of a list of string pairs.
pub open spec fn pairs_view(v: Seq<(String, String)>) -> Seq<(Seq<char>, Seq<char>)> {
    v.map_values(|p: (String, String)| pair_view(p))
}

/// Gathers the issues to report for a log from its analysis (if the
/// analyzer could read it) and from the launcher-version check.
pub fn collect_issues(analyzed: &Option<AnalyzedLog>, outdated: Option<(String, String)>) -> (r: Vec<(String, String)>)
    ensures
        pairs_view(r@) == found_issues(
            *analyzed,
            match outdated {
                Some(o) => Some(pair_view(o)),
                None => None,
            },
        ),
{
    let mut res: Vec<(String, String)> = Vec::new();
    match analyzed {
        Some(a) => {
            let mut i: usize = 0;
            while i < a.issues.len()
                invariant
                    i <= a.issues.len(),
                    pairs_view(res@) == issue_texts(a.issues@.take(i as int), a.recommended_java_version),
                decreases a.issues.len() - i,
            {
                assert(a.issues@.take(i + 1).drop_last() =~= a.issues@.take(i as int));
                let ghost before = res@;
                match format_issue(&a.issues[i], a) {
                    Some(t) => {
                        res.push(t);
                        assert(pairs_view(res@) =~= pairs_view(before).push(pair_view(t)));
                    },
                    None => {},
                }
                i += 1;
            }
            assert(a.issues@.take(a.issues.len() as int) =~= a.issues@);
        },
        None => {
            assert(pairs_view(res@) =~= Seq::<(Seq<char>, Seq<char>)>::empty());
        },
    }
    let ghost before = res@;
    match outdated {
        Some(o) => {
            res.push(o);
            assert(pairs_view(res@) =~= pairs_view(before).push(pair_view(o)));
        },
        None => {},
    }
    res
}

/// The text of the reply when no issue is found.
pub const NO_ISSUES_DESCRIPTION: &'static str = "The automatic check didn't reveal any issues, but it's possible that some issues went undetected. Please wait for a volunteer to assist you.";

/// One embed field per issue: its title as the name, its description as the value.
pub open spec fn issue_fields(issues: Seq<(Seq<char>, Seq<char>)>) -> Seq<FieldModel> {
    issues.map_values(|p: (Seq<char>, Seq<char>)| FieldModel { name: p.0, value: p.1, inline: false })
}

/// The embed that reports the issues found in a log: green with a note when
/// there are none, red with one field per issue otherwise.
pub open spec fn analysis_embed_model(issues: Seq<(Seq<char>, Seq<char>)>) -> EmbedModel {
    if issues.len() == 0 {
        EmbedModel {
            title: Some("Log analysis"@),
            color: Some(Colors::Green.rgb()),
            description: Some(NO_ISSUES_DESCRIPTION@),
            ..empty_embed()
        }
    } else {
        EmbedModel {
            title: Some("Log analysis"@),
            color: Some(Colors::Red.rgb()),
            fields: issue_fields(issues),
            ..empty_embed()
        }
    }
}

/// The embed that reports the issues found in a log.
pub fn analysis_embed(issues: &Vec<(String, String)>) -> (r: EmbedSpec)
    ensures
        r@ == analysis_embed_model(pairs_view(issues@)),
{
    let mut e = EmbedSpec::new().title(String::from_str("Log analysis"));
    if issues.len() == 0 {
        e = e.color(Colors::Green.value()).description(String::from_str(NO_ISSUES_DESCRIPTION));
        return e;
    }
    e = e.color(Colors::Red.value());
    let ghost all = issues@;
    let mut i: usize = 0;
    assert(issue_fields(pairs_view(all.take(0))) =~= Seq::<FieldModel>::empty());
    assert(e@ =~= (EmbedModel {
        fields: issue_fields(pairs_view(all.take(0))),
        ..analysis_embed_model(pairs_view(all))
    }));
    while i < issues.len()
        invariant
            i <= issues.len(),
            all == issues@,
            e@ == (EmbedModel {
                fields: issue_fields(pairs_view(all.take(i as int))),
                ..analysis_embed_model(pairs_view(all))
            }),
        decreases issues.len() - i,
    {
        let title = issues[i].0.clone();
        let description = issues[i].1.clone();
        e = e.field(title, description, false);
        assert(pairs_view(all.take(i + 1)) =~= pairs_view(all.take(i as int)).push(
            pair_view(all[i as int]),
        ));
        assert(issue_fields(pairs_view(all.take(i + 1))) =~= issue_fields(
            pairs_view(all.take(i as int)),
        ).push(FieldModel { name: all[i as int].0@, value: all[i as int].1@, inline: false }));
        i += 1;
    }
    assert(all.take(i as int) =~= all);
    e
}

/// The embed sent when the log could not be downloaded.
pub fn download_failed_embed() -> (r: EmbedSpec)
    ensures
        r@ == (EmbedModel {
            title: Some("Analysis failed!"@),
            description: Some("Couldn't download log"@),
            ..empty_embed()
        }),
{
    EmbedSpec::new().title(String::from_str("Analysis failed!")).description(
        String::from_str("Couldn't download log"),
    )
}

} // verus!
