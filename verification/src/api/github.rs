//! What the bot reads from GitHub about Prism Launcher.
use vstd::prelude::*;
use vstd::string::StringExecFns;

verus! {

/// The owner of the launcher's repository.
pub const PRISM_OWNER: &'static str = "PrismLauncher";

/// The launcher's repository.
pub const PRISM_REPO: &'static str = "PrismLauncher";

/// The stargazer count of the repository, or the error when GitHub did not
/// give one.
pub fn stargazers_count_from(count: Option<u32>) -> (r: Result<u32, String>)
    ensures
        match count {
            Some(c) => r == Ok::<u32, String>(c),
            None => r matches Err(e) && e@ == "Couldn't retrieve stargazers_coutn from GitHub!"@,
        },
{
    match count {
        Some(c) => Ok(c),
        None => Err(String::from_str("Couldn't retrieve stargazers_coutn from GitHub!")),
    }
}

} // verus!
