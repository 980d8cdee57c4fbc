//! What the bot answers when a command fails.
use vstd::prelude::*;
use vstd::string::StringExecFns;

use crate::consts::Colors;
use crate::embed::{empty_embed, EmbedModel, EmbedSpec};

verus! {

/// The answer to arguments that could not be parsed: the error (with the
/// input when known), the command's help text, an editing tip for
/// commands that follow edits, and a pointer to `/help`; each part ends a
/// line.
pub open spec fn argument_parse_text(
    input: Option<Seq<char>>,
    error: Seq<char>,
    help_text: Option<Seq<char>>,
    invoke_on_edit: bool,
    command_name: Seq<char>,
) -> Seq<char> {
    let head = match input {
        Some(i) => "**Cannot parse `"@ + i + "` as argument: "@ + error + "**\n"@ + "\n"@,
        None => "**"@ + error + "**\n"@ + "\n"@,
    };
    let help = match help_text {
        Some(h) => h + "\n"@ + "\n"@,
        None => Seq::empty(),
    };
    let tip = if invoke_on_edit {
        "**Tip:** Edit your message to update the response."@ + "\n"@
    } else {
        Seq::empty()
    };
    head + help + tip + "For more information, refer to /help "@ + command_name + "."@ + "\n"@
}

/// The answer to arguments that could not be parsed.
pub fn argument_parse_response(
    input: Option<&str>,
    error: &str,
    help_text: Option<&str>,
    invoke_on_edit: bool,
    command_name: &str,
) -> (r: String)
    ensures
        r@ == argument_parse_text(
            match input {
                Some(i) => Some(i@),
                None => None,
            },
            error@,
            match help_text {
                Some(h) => Some(h@),
                None => None,
            },
            invoke_on_edit,
            command_name@,
        ),
{
    let mut response = String::new();
    match input {
        Some(i) => {
            response.append("**Cannot parse `");
            response.append(i);
            response.append("` as argument: ");
            response.append(error);
            response.append("**\n");
            response.append("\n");
        },
        None => {
            response.append("**");
            response.append(error);
            response.append("**\n");
            response.append("\n");
        },
    }
    match help_text {
        Some(h) => {
            response.append(h);
            response.append("\n");
            response.append("\n");
        },
        None => {},
    }
    if invoke_on_edit {
        response.append("**Tip:** Edit your message to update the response.");
        response.append("\n");
    }
    response.append("For more information, refer to /help ");
    response.append(command_name);
    response.append(".");
    response.append("\n");
    response
}

/// The embed shown when a command fails (the client adds the time).
pub fn command_error_embed() -> (r: EmbedSpec)
    ensures
        r@ == (EmbedModel {
            title: Some("Something went wrong!"@),
            description: Some("oopsie"@),
            color: Some(Colors::Red.rgb()),
            ..empty_embed()
        }),
{
    EmbedSpec::new().title(String::from_str("Something went wrong!")).description(
        String::from_str("oopsie"),
    ).color(Colors::Red.value())
}

/// The private answer to someone who may not use a command.
pub const NOT_ALLOWED: &'static str = "❌ You're not allowed to use this command.";

/// How a failed command check is answered.
#[derive(Debug, PartialEq, Eq)]
pub enum CheckFailedAnswer {
    /// The check itself failed: log its error.
    LogError,
    /// Tell the user, privately, that they may not use the command ([`NOT_ALLOWED`]).
    TellNotAllowed,
    /// Say nothing.
    Nothing,
}

/// The answer to a failed command check: log the check's own error when
/// there is one; otherwise tell a slash-command user they are not allowed;
/// say nothing to a prefix-command user.
pub fn check_failed_answer(check_had_error: bool, is_slash_command: bool) -> (r: CheckFailedAnswer)
    ensures
        r == (if check_had_error {
            CheckFailedAnswer::LogError
        } else if is_slash_command {
            CheckFailedAnswer::TellNotAllowed
        } else {
            CheckFailedAnswer::Nothing
        }),
{
    if check_had_error {
        CheckFailedAnswer::LogError
    } else if is_slash_command {
        CheckFailedAnswer::TellNotAllowed
    } else {
        CheckFailedAnswer::Nothing
    }
}

} // verus!
