//! The GitHub repositories whose contributors get roles.
use vstd::prelude::*;
use vstd::string::StringExecFns;

verus! {

/// A repository and the role its contributors get.
#[derive(Debug)]
pub struct RefractionRepo {
    pub owner: String,
    pub repo: String,
    pub key: String,
    pub name: String,
}

/// The GitHub settings.
#[derive(Debug)]
pub struct GithubConfig {
    pub token: String,
    pub repos: Vec<RefractionRepo>,
    pub cache_sec: u16,
    pub update_cron_job: String,
}

/// The mathematical value of a repository entry: owner, repository, key, role name.
pub open spec fn repo_view(r: RefractionRepo) -> (Seq<char>, Seq<char>, Seq<char>, Seq<char>) {
    (r.owner@, r.repo@, r.key@, r.name@)
}

/// The repositories every configuration starts with.
pub open spec fn default_repos() -> Seq<(Seq<char>, Seq<char>, Seq<char>, Seq<char>)> {
    seq![
        ("PrismLauncher"@, "PrismLauncher"@, "launcher"@, "Launcher contributor"@),
        ("PrismLauncher"@, "prismlauncher.org"@, "website"@, "Web developer"@),
        ("PrismLauncher"@, "Translations"@, "translations"@, "Translator"@),
    ]
}

/// The configuration `token` gets when it alone is set.
pub open spec fn is_default_with_token(c: GithubConfig, token: Seq<char>) -> bool {
    &&& c.token@ == token
    &&& c.repos@.map_values(|r: RefractionRepo| repo_view(r)) == default_repos()
    &&& c.cache_sec == 3600
    &&& c.update_cron_job@ == "0 */10 * * * *"@
}

fn make_repo(owner: &str, repo: &str, key: &str, name: &str) -> (r: RefractionRepo)
    ensures
        repo_view(r) == (owner@, repo@, key@, name@),
{
    RefractionRepo {
        owner: String::from_str(owner),
        repo: String::from_str(repo),
        key: String::from_str(key),
        name: String::from_str(name),
    }
}

impl GithubConfig {
    /// The settings with the default repositories, an hourly cache, an
    /// update every ten minutes, and `token`.
    pub fn with_token(token: String) -> (r: Self)
        ensures
            is_default_with_token(r, token@),
    {
        let repos = vec![
            make_repo("PrismLauncher", "PrismLauncher", "launcher", "Launcher contributor"),
            make_repo("PrismLauncher", "prismlauncher.org", "website", "Web developer"),
            make_repo("PrismLauncher", "Translations", "translations", "Translator"),
        ];
        assert(repos@.map_values(|r: RefractionRepo| repo_view(r)) =~= default_repos());
        Self { repos, cache_sec: 3600, update_cron_job: String::from_str("0 */10 * * * *"), token }
    }
}

impl Default for GithubConfig {
    fn default() -> (r: Self)
        ensures
            is_default_with_token(r, Seq::empty()),
    {
        GithubConfig::with_token(String::new())
    }
}

/// The message when `GITHUB_TOKEN` is not set.
pub fn missing_token_message() -> (r: String)
    ensures
        r@ == "Couldn't find "@ + "GITHUB_TOKEN"@ + " in environment!"@,
{
    let mut m = String::from_str("Couldn't find ");
    m.append("GITHUB_TOKEN");
    m.append(" in environment!");
    m
}

} // verus!
