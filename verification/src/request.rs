//! Data shapes of the remote manifest and of the remote content API.
//!
//! `RemoteYaml` is the parsed manifest: the catalog of pages, components and
//! projects a repository offers.  `GithubRequestDir` and `ContentsResponse`
//! mirror one node of a remote directory listing and one fetched file.  The
//! values are produced outside this crate and handed in as plain data.

use vstd::prelude::*;
use vstd::string::{StrSliceExecFns, StringExecFns};
use vstd::utf8::{decode_utf8, encode_utf8, valid_utf8};

use crate::decode::{b64_decode, decoded_content, string_from_utf8, strip_whitespace};
use crate::deps::names_of;
use crate::{FetchError, TemplateType};

verus! {

/// One installable unit of the manifest: a page or component, with the names
/// of the components it depends on.
#[derive(Clone, Debug)]
pub struct ConfigYaml {
    pub name: String,
    pub description: String,
    pub dependencies: Vec<String>,
}

/// One project template of the manifest; projects declare no dependencies.
#[derive(Clone, Debug)]
pub struct Projects {
    pub name: String,
    pub description: String,
}

/// The full parsed manifest for one repository and branch.
#[derive(Clone, Debug)]
pub struct RemoteYaml {
    pub components: Vec<ConfigYaml>,
    pub pages: Vec<ConfigYaml>,
    pub projects: Vec<Projects>,
}

/// The link block of a content response.
#[derive(Clone, Debug)]
pub struct Links {
    pub _self: String,
    pub git: String,
    pub html: String,
}

/// One fetched file: its metadata and its base64-encoded body.
#[derive(Clone, Debug)]
pub struct ContentsResponse {
    pub name: String,
    pub path: String,
    pub sha: String,
    pub size: u32,
    pub url: String,
    pub html_url: String,
    pub git_url: String,
    pub download_url: String,
    pub file_type: String,
    pub content: String,
    pub encoding: String,
    pub _links: Links,
}

/// One dependency name as it appears in a menu line: in double quotes.
pub open spec fn quoted_spec(s: Seq<char>) -> Seq<char> {
    "\""@ + s + "\""@
}

/// The quoted dependency names, separated by comma and space.
pub open spec fn dep_list_items_spec(l: Seq<Seq<char>>) -> Seq<char>
    decreases l.len(),
{
    if l.len() == 0 {
        Seq::empty()
    } else if l.len() == 1 {
        quoted_spec(l[0])
    } else {
        dep_list_items_spec(l.drop_last()) + ", "@ + quoted_spec(l.last())
    }
}

/// The dependency names rendered as a bracketed list of quoted names.
pub open spec fn dep_list_spec(l: Seq<Seq<char>>) -> Seq<char> {
    "["@ + dep_list_items_spec(l) + "]"@
}

/// The menu line shown for a page or component: name, description and
/// dependency list, separated by arrows.
pub open spec fn entry_line_spec(e: ConfigYaml) -> Seq<char> {
    e.name@ + " ----> "@ + e.description@ + " ----> "@ + dep_list_spec(names_of(e.dependencies@))
}

/// The menu line shown for a project: name and description.
pub open spec fn project_line_spec(p: Projects) -> Seq<char> {
    p.name@ + " ----> "@ + p.description@
}

/// Renders a dependency list as a bracketed, comma-separated run of quoted
/// names.
fn render_dep_list(deps: &Vec<String>) -> (r: String)
    ensures
        r@ == dep_list_spec(names_of(deps@)),
{
    let mut out = String::new();
    out.append("[");
    let mut i: usize = 0;
    while i < deps.len()
        invariant
            i <= deps.len(),
            out@ == "["@ + dep_list_items_spec(names_of(deps@).take(i as int)),
        decreases deps.len() - i,
    {
        proof {
            let t = names_of(deps@).take(i + 1);
            assert(t.drop_last() =~= names_of(deps@).take(i as int));
            assert(t.last() == deps@[i as int]@);
        }
        if i > 0 {
            out.append(", ");
        }
        out.append("\"");
        out.append(deps[i].as_str());
        out.append("\"");
        i = i + 1;
    }
    proof {
        assert(names_of(deps@).take(deps@.len() as int) =~= names_of(deps@));
    }
    out.append("]");
    out
}

/// Builds the menu line of one page or component.
fn entry_line(e: &ConfigYaml) -> (r: String)
    ensures
        r@ == entry_line_spec(*e),
{
    let mut out = String::new();
    out.append(e.name.as_str());
    out.append(" ----> ");
    out.append(e.description.as_str());
    out.append(" ----> ");
    let rendered = render_dep_list(&e.dependencies);
    out.append(rendered.as_str());
    out
}

/// Builds the menu line of one project.
fn project_line(p: &Projects) -> (r: String)
    ensures
        r@ == project_line_spec(*p),
{
    let mut out = String::new();
    out.append(p.name.as_str());
    out.append(" ----> ");
    out.append(p.description.as_str());
    out
}

impl RemoteYaml {
    /// The menu lines offered for the given template kind: one line per
    /// catalog entry of that kind, in catalog order.
    pub fn get_output_string_vec(&self, output_type: TemplateType) -> (r: Vec<String>)
        ensures
            output_type is Components ==> r@.len() == self.components@.len() && forall|i: int|
                0 <= i < r@.len() ==> #[trigger] r@[i]@ == entry_line_spec(self.components@[i]),
            output_type is Pages ==> r@.len() == self.pages@.len() && forall|i: int|
                0 <= i < r@.len() ==> #[trigger] r@[i]@ == entry_line_spec(self.pages@[i]),
            output_type is Project ==> r@.len() == self.projects@.len() && forall|i: int|
                0 <= i < r@.len() ==> #[trigger] r@[i]@ == project_line_spec(self.projects@[i]),
    {
        let mut result: Vec<String> = Vec::new();
        match output_type {
            TemplateType::Components => {
                let mut i: usize = 0;
                while i < self.components.len()
                    invariant
                        i <= self.components@.len(),
                        result@.len() == i,
                        forall|k: int|
                            0 <= k < i ==> #[trigger] result@[k]@ == entry_line_spec(
                                self.components@[k],
                            ),
                    decreases self.components@.len() - i,
                {
                    result.push(entry_line(&self.components[i]));
                    i = i + 1;
                }
                result
            },
            TemplateType::Pages => {
                let mut i: usize = 0;
                while i < self.pages.len()
                    invariant
                        i <= self.pages@.len(),
                        result@.len() == i,
                        forall|k: int|
                            0 <= k < i ==> #[trigger] result@[k]@ == entry_line_spec(
                                self.pages@[k],
                            ),
                    decreases self.pages@.len() - i,
                {
                    result.push(entry_line(&self.pages[i]));
                    i = i + 1;
                }
                result
            },
            TemplateType::Project => {
                let mut i: usize = 0;
                while i < self.projects.len()
                    invariant
                        i <= self.projects@.len(),
                        result@.len() == i,
                        forall|k: int|
                            0 <= k < i ==> #[trigger] result@[k]@ == project_line_spec(
                                self.projects@[k],
                            ),
                    decreases self.projects@.len() - i,
                {
                    result.push(project_line(&self.projects[i]));
                    i = i + 1;
                }
                result
            },
        }
    }

    /// The menu lines for the given kind; a thin alias kept for callers of
    /// the selection flow.
    pub fn get_page_templates_items_by_type(&self, t_type: TemplateType) -> (r: Vec<String>)
        ensures
            t_type is Components ==> r@.len() == self.components@.len() && forall|i: int|
                0 <= i < r@.len() ==> #[trigger] r@[i]@ == entry_line_spec(self.components@[i]),
            t_type is Pages ==> r@.len() == self.pages@.len() && forall|i: int|
                0 <= i < r@.len() ==> #[trigger] r@[i]@ == entry_line_spec(self.pages@[i]),
            t_type is Project ==> r@.len() == self.projects@.len() && forall|i: int|
                0 <= i < r@.len() ==> #[trigger] r@[i]@ == project_line_spec(self.projects@[i]),
    {
        self.get_output_string_vec(t_type)
    }
}

impl ContentsResponse {
    /// Decodes the base64 body to a UTF-8 string, ignoring interleaved
    /// whitespace.  Fails when the body is not well-formed base64 or when the
    /// decoded bytes are not valid UTF-8; the caller skips the file, it does
    /// not abort the rest of the tree.
    pub fn decode_base64_to_string(&self) -> (r: Result<String, FetchError>)
        ensures
            ({
                let d = decoded_content(encode_utf8(self.content@));
                &&& r is Ok <==> (d is Some && valid_utf8(d->0))
                &&& r matches Ok(s) ==> s@ == decode_utf8(d->0)
                &&& r is Err ==> r == Result::<String, FetchError>::Err(FetchError::Encoding)
            }),
    {
        let bytes = self.content.as_str().as_bytes_vec();
        let stripped = strip_whitespace(&bytes);
        match b64_decode(&stripped) {
            Ok(decoded) => match string_from_utf8(decoded) {
                Ok(s) => Ok(s),
                Err(_) => Err(FetchError::Encoding),
            },
            Err(_) => Err(FetchError::Encoding),
        }
    }

    /// Decodes the base64 body to raw bytes, ignoring interleaved
    /// whitespace.
    pub fn decode_base64_to_u8(&self) -> (r: Result<Vec<u8>, FetchError>)
        ensures
            r is Ok <==> decoded_content(encode_utf8(self.content@)) is Some,
            r matches Ok(v) ==> Some(v@) == decoded_content(encode_utf8(self.content@)),
            r is Err ==> r == Result::<Vec<u8>, FetchError>::Err(FetchError::Encoding),
    {
        let bytes = self.content.as_str().as_bytes_vec();
        let stripped = strip_whitespace(&bytes);
        match b64_decode(&stripped) {
            Ok(decoded) => Ok(decoded),
            Err(_) => Err(FetchError::Encoding),
        }
    }
}

/// One node of a remote directory listing: a file or a subdirectory.
#[derive(Clone, Debug)]
pub struct GithubRequestDir {
    pub _links: Links,
    pub url: String,
    pub html_url: String,
    pub git_url: String,
    pub download_url: Option<String>,
    pub name: String,
    pub path: String,
    pub file_type: String,
    pub sha: String,
    pub size: u32,
}

/// One whole remote directory listing.
pub type RemoteGithubDir = Vec<GithubRequestDir>;

} // verus!
