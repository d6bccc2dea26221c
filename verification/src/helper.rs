//! Repository configuration and the remote URLs derived from it.
//!
//! `LocalConfigFile` is the shape of the user's configuration file as parsed;
//! `ConfigFile` is the validated, fully defaulted record every other part of
//! the library takes as a parameter.

use vstd::prelude::*;
use vstd::string::StringExecFns;

use crate::TemplateType;

verus! {

/// The validated configuration record: which repository to talk to, with
/// which token, on which branch, and where its templates live.
#[derive(Clone, Debug)]
pub struct ConfigFile {
    pub github_name: String,
    pub repo_name: String,
    pub github_api_token: String,
    pub target_branch: String,
    pub templates_source: String,
}

/// The configuration file as read from disk: the token, templates path and
/// branch may be absent and are defaulted during validation.
#[derive(Clone, Debug)]
pub struct LocalConfigFile {
    pub github_name: String,
    pub repo_name: String,
    pub github_api_token: Option<String>,
    pub templates_source: Option<String>,
    pub target_branch: Option<String>,
}

/// Why a configuration file was rejected.
#[derive(Clone, Copy, Debug, PartialEq, Eq, Structural)]
pub enum ConfigError {
    MissingGithubName,
    MissingRepoName,
}

/// The fixed prefix of every remote API URL.
pub open spec fn api_prefix_spec() -> Seq<char> {
    "https://api.github.com/repos"@
}

/// The remote path segment of each template kind.
pub open spec fn type_segment_spec(t: TemplateType) -> Seq<char> {
    match t {
        TemplateType::Pages => "pages"@,
        TemplateType::Components => "components"@,
        TemplateType::Project => "projects"@,
    }
}

/// The URL of the repository's manifest file.
pub open spec fn remote_yaml_url_spec(c: ConfigFile) -> Seq<char> {
    api_prefix_spec() + "/"@ + c.github_name@ + "/"@ + c.repo_name@ + "/"@ + "contents"@ + "/"@
        + "wego.yaml"@
}

/// The URL of one template directory of the given kind and name.
pub open spec fn remote_template_url_spec(
    c: ConfigFile,
    t: TemplateType,
    name: Seq<char>,
) -> Seq<char> {
    api_prefix_spec() + "/"@ + c.github_name@ + "/"@ + c.repo_name@ + "/"@ + "contents"@ + "/"@
        + c.templates_source@ + "/"@ + type_segment_spec(t) + "/"@ + name
}

/// The fixed prefix of every remote API URL.
pub fn api_prefix() -> (r: &'static str)
    ensures
        r@ == api_prefix_spec(),
{
    "https://api.github.com/repos"
}

/// The remote path segment of the given template kind.
pub fn type_segment(t: TemplateType) -> (r: &'static str)
    ensures
        r@ == type_segment_spec(t),
{
    match t {
        TemplateType::Pages => "pages",
        TemplateType::Components => "components",
        TemplateType::Project => "projects",
    }
}

impl ConfigFile {
    /// Bundles the five configuration values into a record.
    pub fn new(
        github_name: String,
        repo_name: String,
        github_api_token: String,
        target_branch: String,
        templates_source: String,
    ) -> (r: Self)
        ensures
            r.github_name == github_name,
            r.repo_name == repo_name,
            r.github_api_token == github_api_token,
            r.target_branch == target_branch,
            r.templates_source == templates_source,
    {
        ConfigFile { github_name, repo_name, github_api_token, target_branch, templates_source }
    }

    /// The URL under which the repository's manifest file is fetched.
    pub fn get_remote_yaml_url(&self) -> (r: String)
        ensures
            r@ == remote_yaml_url_spec(*self),
    {
        let mut url = String::new();
        url.append(api_prefix());
        url.append("/");
        url.append(self.github_name.as_str());
        url.append("/");
        url.append(self.repo_name.as_str());
        url.append("/");
        url.append("contents");
        url.append("/");
        url.append("wego.yaml");
        url
    }

    /// The URL of the remote directory that holds one template of the given
    /// kind and name.
    pub fn get_remote_template_url(&self, file_type: TemplateType, file_name: &String) -> (r:
        String)
        ensures
            r@ == remote_template_url_spec(*self, file_type, file_name@),
    {
        let mut url = String::new();
        url.append(api_prefix());
        url.append("/");
        url.append(self.github_name.as_str());
        url.append("/");
        url.append(self.repo_name.as_str());
        url.append("/");
        url.append("contents");
        url.append("/");
        url.append(self.templates_source.as_str());
        url.append("/");
        url.append(type_segment(file_type));
        url.append("/");
        url.append(file_name.as_str());
        url
    }
}

impl LocalConfigFile {
    /// Validates the parsed configuration file and fills in the defaults:
    /// the token defaults to the empty string, the branch to `main`, the
    /// templates path to `templates`.  A missing repository owner or name is
    /// rejected.
    pub fn into_config(self) -> (r: Result<ConfigFile, ConfigError>)
        ensures
            self.github_name@.len() == 0 ==> r == Result::<ConfigFile, ConfigError>::Err(
                ConfigError::MissingGithubName,
            ),
            self.github_name@.len() > 0 && self.repo_name@.len() == 0 ==> r == Result::<
                ConfigFile,
                ConfigError,
            >::Err(ConfigError::MissingRepoName),
            self.github_name@.len() > 0 && self.repo_name@.len() > 0 ==> {
                &&& r is Ok
                &&& r->Ok_0.github_name == self.github_name
                &&& r->Ok_0.repo_name == self.repo_name
                &&& r->Ok_0.github_api_token@ == match self.github_api_token {
                    Option::Some(t) => t@,
                    Option::None => Seq::<char>::empty(),
                }
                &&& r->Ok_0.target_branch@ == match self.target_branch {
                    Option::Some(b) => b@,
                    Option::None => "main"@,
                }
                &&& r->Ok_0.templates_source@ == match self.templates_source {
                    Option::Some(s) => s@,
                    Option::None => "templates"@,
                }
            },
    {
        if self.github_name.as_str().is_empty() {
            return Err(ConfigError::MissingGithubName);
        }
        if self.repo_name.as_str().is_empty() {
            return Err(ConfigError::MissingRepoName);
        }
        let token = match self.github_api_token {
            Option::Some(t) => t,
            Option::None => String::new(),
        };
        let branch = match self.target_branch {
            Option::Some(b) => b,
            Option::None => "main".to_owned(),
        };
        let source = match self.templates_source {
            Option::Some(s) => s,
            Option::None => "templates".to_owned(),
        };
        Ok(
            ConfigFile {
                github_name: self.github_name,
                repo_name: self.repo_name,
                github_api_token: token,
                target_branch: branch,
                templates_source: source,
            },
        )
    }
}

} // verus!
