//! Pure decisions of the tree materializer and the local path planner.
//!
//! The functions here decide everything the downloader does — which URI to
//! request, which local path a node lands on, whether a node is a file or a
//! directory, whether an existing component is skipped — while the I/O that
//! carries the decisions out lives outside the crate.

use vstd::prelude::*;
use vstd::string::{StrSliceExecFns, StringExecFns};

use crate::helper::{remote_template_url_spec, ConfigFile};
use crate::request::GithubRequestDir;
use crate::{FetchError, TemplateType};

verus! {

/// The separator used in all planned local paths.
pub open spec fn sep_spec() -> Seq<char> {
    "/"@
}

/// The separator used in all planned local paths.
pub fn file_marker() -> (r: &'static str)
    ensures
        r@ == sep_spec(),
{
    "/"
}

/// The local subtree under which each template kind is placed: pages and
/// components live under `src`, a project lands in the current directory
/// itself.
pub open spec fn local_subtree_spec(t: TemplateType) -> Seq<char> {
    match t {
        TemplateType::Components => "src/components"@,
        TemplateType::Pages => "src/pages"@,
        TemplateType::Project => ""@,
    }
}

/// The local subtree for the given template kind.
pub fn local_subtree(t: TemplateType) -> (r: &'static str)
    ensures
        r@ == local_subtree_spec(t),
{
    match t {
        TemplateType::Components => "src/components",
        TemplateType::Pages => "src/pages",
        TemplateType::Project => "",
    }
}

/// The non-empty parts, joined by the separator: an empty part contributes
/// neither itself nor a separator.
pub open spec fn join_skip_empty(parts: Seq<Seq<char>>, sep: Seq<char>) -> Seq<char>
    decreases parts.len(),
{
    if parts.len() == 0 {
        Seq::empty()
    } else {
        let acc = join_skip_empty(parts.drop_last(), sep);
        if parts.last().len() == 0 {
            acc
        } else if acc.len() == 0 {
            parts.last()
        } else {
            acc + sep + parts.last()
        }
    }
}

/// The local directory planned for a template of the given kind and name.
pub open spec fn local_dir_spec(cwd: Seq<char>, t: TemplateType, name: Seq<char>) -> Seq<char> {
    join_skip_empty(seq![cwd, local_subtree_spec(t), name], sep_spec())
}

/// Appends one path part to the joined path built so far: nothing for an
/// empty part, the part alone onto an empty path, and separator plus part
/// otherwise.
fn join_push(acc: &mut String, part: &str, sep: &str)
    ensures
        final(acc)@ == (if part@.len() == 0 {
            old(acc)@
        } else if old(acc)@.len() == 0 {
            part@
        } else {
            old(acc)@ + sep@ + part@
        }),
{
    if !part.is_empty() {
        if !acc.as_str().is_empty() {
            acc.append(sep);
        }
        acc.append(part);
    }
}

/// The local directory in which a template of the given kind and name is
/// materialized, under the current directory `cwd`.
pub fn get_local_dir(cwd: &str, name: &String, temp_type: TemplateType) -> (r: String)
    ensures
        r@ == local_dir_spec(cwd@, temp_type, name@),
{
    let mut path = String::new();
    join_push(&mut path, cwd, file_marker());
    join_push(&mut path, local_subtree(temp_type), file_marker());
    join_push(&mut path, name.as_str(), file_marker());
    proof {
        reveal_with_fuel(join_skip_empty, 4);
        let parts = seq![cwd@, local_subtree_spec(temp_type), name@];
        let two = seq![cwd@, local_subtree_spec(temp_type)];
        let one = seq![cwd@];
        assert(parts.drop_last() =~= two);
        assert(two.drop_last() =~= one);
        assert(one.drop_last() =~= Seq::<Seq<char>>::empty());
        assert(parts.last() == name@);
        assert(two.last() == local_subtree_spec(temp_type));
        assert(one.last() == cwd@);
    }
    path
}

/// The URL of one remote template directory, from the configuration.
pub fn get_item_url(config: &ConfigFile, file_type: TemplateType, file_name: &String) -> (r:
    String)
    ensures
        r@ == remote_template_url_spec(*config, file_type, file_name@),
{
    config.get_remote_template_url(file_type, file_name)
}

/// The request URI for an endpoint: the URL with the target branch appended
/// as a `ref` query parameter.
pub open spec fn ref_uri_spec(url: Seq<char>, branch: Seq<char>) -> Seq<char> {
    url + "?ref="@ + branch
}

/// Builds the URI actually requested for an endpoint and branch.
pub fn build_ref_uri(url: &String, target_branch: &String) -> (r: String)
    ensures
        r@ == ref_uri_spec(url@, target_branch@),
{
    let mut u = url.clone();
    u.append("?ref=");
    u.append(target_branch.as_str());
    u
}

/// `p` occurs as a contiguous run of characters inside `s`.
pub open spec fn contains_seq(s: Seq<char>, p: Seq<char>) -> bool {
    exists|i: int| 0 <= i <= s.len() - p.len() && #[trigger] s.subrange(i, i + p.len()) == p
}

/// Whether `pat` matches `s` exactly at offset `i`.
fn match_at(s: &str, pat: &str, i: usize, m: usize) -> (b: bool)
    requires
        m == pat@.len(),
        i + m <= s@.len(),
        s@.len() <= usize::MAX,
    ensures
        b == (s@.subrange(i as int, i as int + m as int) == pat@),
{
    let mut j: usize = 0;
    while j < m
        invariant
            j <= m,
            m == pat@.len(),
            i + m <= s@.len(),
            s@.len() <= usize::MAX,
            forall|q: int| 0 <= q < j ==> s@[i + q] == pat@[q],
        decreases m - j,
    {
        if s.get_char(i + j) != pat.get_char(j) {
            assert(s@.subrange(i as int, i as int + m as int)[j as int] != pat@[j as int]);
            return false;
        }
        j = j + 1;
    }
    proof {
        assert(s@.subrange(i as int, i as int + m as int) =~= pat@);
    }
    true
}

/// Whether `pat` occurs anywhere inside `s`.
pub fn contains_substr(s: &String, pat: &str) -> (b: bool)
    ensures
        b == contains_seq(s@, pat@),
{
    let n = s.as_str().unicode_len();
    let m = pat.unicode_len();
    if m > n {
        return false;
    }
    if m == 0 {
        proof {
            assert(s@.subrange(0, 0 + pat@.len() as int) =~= pat@);
        }
        return true;
    }
    let mut i: usize = 0;
    while i <= n - m
        invariant
            1 <= m <= n,
            n == s@.len(),
            m == pat@.len(),
            i <= n - m + 1,
            forall|k: int| 0 <= k < i ==> #[trigger] s@.subrange(k, k + m as int) != pat@,
        decreases n - m - i + 1,
    {
        if match_at(s.as_str(), pat, i, m) {
            return true;
        }
        i = i + 1;
    }
    assert(forall|k: int| 0 <= k <= n - m ==> #[trigger] s@.subrange(k, k + m as int) != pat@);
    false
}

/// Whether the completion message for a fetched file references the preview
/// URL rather than the local path: files whose remote path names a README
/// are reported by their preview link.
pub fn report_preview(request_path: &String) -> (b: bool)
    ensures
        b == contains_seq(request_path@, "README"@),
{
    contains_substr(request_path, "README")
}

/// What the materializer does for one node of a remote directory listing.
#[derive(Clone, Debug)]
pub enum NodeAction {
    /// Create the local directory `local_path`, fetch the listing at `url`,
    /// and recurse into it.
    MakeDir { local_path: String, url: String },
    /// Fetch the file at `url`, decode its body, and write the bytes to
    /// `local_path`; `preview_url` is what a README's completion message
    /// shows instead of the path.
    WriteFile { url: String, local_path: String, preview_url: String },
}

/// A listing node is a subdirectory exactly when its type field says `dir`.
pub open spec fn is_dir_entry(e: GithubRequestDir) -> bool {
    e.file_type@ == "dir"@
}

/// Whether a listing node names a subdirectory.
pub fn is_dir(file_type: &String) -> (b: bool)
    ensures
        b == (file_type@ == "dir"@),
{
    let d: String = "dir".to_owned();
    *file_type == d
}

/// The local path of a child node: the parent path, the separator, the
/// node's name.
pub open spec fn child_path_spec(local: Seq<char>, name: Seq<char>) -> Seq<char> {
    local + sep_spec() + name
}

/// `a` is the action the materializer owes for listing node `e` under the
/// local directory `local`: subdirectories are created and recursed into,
/// files are fetched and written, each at the child path named after the
/// node.
pub open spec fn action_for(a: NodeAction, e: GithubRequestDir, local: Seq<char>) -> bool {
    if is_dir_entry(e) {
        a matches NodeAction::MakeDir { local_path, url } && local_path@ == child_path_spec(
            local,
            e.name@,
        ) && url@ == e.url@
    } else {
        a matches NodeAction::WriteFile { url, local_path, preview_url } && url@ == e.url@
            && local_path@ == child_path_spec(local, e.name@) && preview_url@ == e.html_url@
    }
}

/// Plans one action per node of a remote listing: every sibling gets its own
/// action, so all of them can be dispatched together, and the level counts
/// as complete only when every planned action has finished.
pub fn plan_entries(entries: &Vec<GithubRequestDir>, local_path: &String) -> (r: Vec<NodeAction>)
    ensures
        r@.len() == entries@.len(),
        forall|i: int|
            0 <= i < entries@.len() ==> action_for(#[trigger] r@[i], entries@[i], local_path@),
{
    let mut out: Vec<NodeAction> = Vec::new();
    let mut i: usize = 0;
    while i < entries.len()
        invariant
            i <= entries.len(),
            out@.len() == i,
            forall|k: int| 0 <= k < i ==> action_for(#[trigger] out@[k], entries@[k], local_path@),
        decreases entries.len() - i,
    {
        let e = &entries[i];
        let mut child = local_path.clone();
        child.append(file_marker());
        child.append(e.name.as_str());
        if is_dir(&e.file_type) {
            out.push(NodeAction::MakeDir { local_path: child, url: e.url.clone() });
        } else {
            out.push(
                NodeAction::WriteFile {
                    url: e.url.clone(),
                    local_path: child,
                    preview_url: e.html_url.clone(),
                },
            );
        }
        i = i + 1;
    }
    out
}

/// One planned component download: where to fetch it from and where to put
/// it.
#[derive(Clone, Debug)]
pub struct ComponentPlan {
    pub request_url: String,
    pub local_dir: String,
}

/// Decides whether a component is downloaded at all.  A component whose
/// local target directory already exists is skipped outright — no fetch is
/// planned and the existing contents are left untouched; otherwise the plan
/// names the remote directory to fetch and the local directory to create.
pub fn plan_component_download(
    config: &ConfigFile,
    cwd: &str,
    name: &String,
    local_exists: bool,
) -> (r: Option<ComponentPlan>)
    ensures
        local_exists ==> r is None,
        !local_exists ==> {
            &&& r is Some
            &&& r->0.request_url@ == remote_template_url_spec(
                *config,
                TemplateType::Components,
                name@,
            )
            &&& r->0.local_dir@ == local_dir_spec(cwd@, TemplateType::Components, name@)
        },
{
    if local_exists {
        None
    } else {
        Some(
            ComponentPlan {
                request_url: config.get_remote_template_url(TemplateType::Components, name),
                local_dir: get_local_dir(cwd, name, TemplateType::Components),
            },
        )
    }
}

/// Picks the local name of a selected template: the user's custom name when
/// one was given, the template's own name otherwise.
pub fn choose_file_name(custom_name: String, fallback: &String) -> (r: String)
    ensures
        custom_name@.len() == 0 ==> r@ == fallback@,
        custom_name@.len() > 0 ==> r == custom_name,
{
    if custom_name.as_str().is_empty() {
        fallback.clone()
    } else {
        custom_name
    }
}

/// Decides whether a response carries data: status 200 does, every other
/// status is reported as a remote error carrying that status.
pub fn classify_status(status: u16) -> (r: Result<(), FetchError>)
    ensures
        status == 200 ==> r is Ok,
        status != 200 ==> r == Result::<(), FetchError>::Err(FetchError::Remote { status }),
{
    if status == 200 {
        Ok(())
    } else {
        Err(FetchError::Remote { status })
    }
}

} // verus!
