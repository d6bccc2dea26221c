//! Library behind a small project-scaffolding fetcher.
//!
//! Given a manifest of available templates (pages, components, projects) the
//! library resolves the transitive dependency closure of a selection, plans
//! local paths and remote URLs for each item, classifies responses, and
//! decodes base64 file bodies.  Everything that touches the network or the
//! filesystem lives outside this crate; the functions here are pure decisions
//! over plain values, each with a proved contract.

use vstd::prelude::*;

pub mod decode;
pub mod deps;
pub mod helper;
pub mod plan;
pub mod request;
pub mod utils;

verus! {

/// The kind of template a user can select: a page, a component, or a whole
/// project.  It determines the local directory subtree and the remote path
/// segment used for the item.
#[derive(Clone, Copy, PartialEq, Eq, Structural, Debug)]
pub enum TemplateType {
    Pages,
    Components,
    Project,
}

/// Why one remote node failed: the error taxonomy of the fetcher.  A failing
/// node is reported and skipped; it never aborts its siblings.
#[derive(Clone, Copy, Debug, PartialEq, Eq, Structural)]
pub enum FetchError {
    /// A connection-level failure: the request never produced a response.
    Transport,
    /// The remote side answered with a status other than 200.
    Remote { status: u16 },
    /// The response body did not have the expected shape.
    Decode,
    /// The file body was not valid base64, or its decoded bytes were not
    /// valid UTF-8 where text was required.
    Encoding,
    /// A local directory or file could not be created or written.
    Filesystem,
}

/// Adds two numbers; kept as the library's smallest exported entry point.
pub fn sum(a: i32, b: i32) -> (r: i32)
    requires
        i32::MIN <= a + b <= i32::MAX,
    ensures
        r == a + b,
{
    a + b
}

} // verus!

