//! Rendering of the local configuration file.
//!
//! The interactive prompts and the file write live outside the crate; here
//! the answers are defaulted and laid out into the exact text that lands in
//! the configuration file.

use vstd::prelude::*;
use vstd::string::StringExecFns;

verus! {

/// The text of one rendered configuration file, around the five values.
pub open spec fn config_template_spec(
    github_name: Seq<char>,
    repo_name: Seq<char>,
    github_api_token: Seq<char>,
    templates_source: Seq<char>,
    target_branch: Seq<char>,
) -> Seq<char> {
    "github_name: "@ + github_name + "\rrepo_name: "@ + repo_name
        + "\r# The github api token\r github_api_token: "@ + github_api_token
        + "\r \r# You can customize the templates dir path\r# templates_source: "@
        + templates_source
        + "\r\r# You can customize the repo target branch name(default: main)\r# target_branch: "@
        + target_branch
}

/// The local path of the configuration file: `wego.yaml` in the current
/// directory.
pub fn local_config_file_path(cwd: &str) -> (r: String)
    ensures
        r@ == cwd@ + "/"@ + "wego.yaml"@,
{
    let mut path = cwd.to_owned();
    path.append("/");
    path.append("wego.yaml");
    path
}

/// The contents written for a fresh configuration file with every value left
/// blank or commented out.
pub fn default_config_template() -> (r: String)
    ensures
        r@
            == "github_name: \rrepo_name: \r# The github api token\r# github_api_token: \r \r# You can customize the templates dir path\r# templates_source: templates\r\r# You can customize the repo target branch name(default: main)\r# target_branch: main"@,
{
    "github_name: \rrepo_name: \r# The github api token\r# github_api_token: \r \r# You can customize the templates dir path\r# templates_source: templates\r\r# You can customize the repo target branch name(default: main)\r# target_branch: main".to_owned()
}

/// Renders the configuration file from the user's answers.  An empty branch
/// defaults to `main` and an empty templates path to `templates`; the token
/// is kept as given, empty or not.
pub fn render_config_template(
    github_name: &str,
    repo_name: &str,
    github_api_token: &str,
    templates_source: &str,
    target_branch: &str,
) -> (r: String)
    ensures
        r@ == config_template_spec(
            github_name@,
            repo_name@,
            github_api_token@,
            if templates_source@.len() == 0 {
                "templates"@
            } else {
                templates_source@
            },
            if target_branch@.len() == 0 {
                "main"@
            } else {
                target_branch@
            },
        ),
{
    let mut out = String::new();
    out.append("github_name: ");
    out.append(github_name);
    out.append("\rrepo_name: ");
    out.append(repo_name);
    out.append("\r# The github api token\r github_api_token: ");
    out.append(github_api_token);
    out.append("\r \r# You can customize the templates dir path\r# templates_source: ");
    if templates_source.is_empty() {
        out.append("templates");
    } else {
        out.append(templates_source);
    }
    out.append(
        "\r\r# You can customize the repo target branch name(default: main)\r# target_branch: ",
    );
    if target_branch.is_empty() {
        out.append("main");
    } else {
        out.append(target_branch);
    }
    out
}

} // verus!
