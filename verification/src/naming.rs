use vstd::prelude::*;

use crate::errors::ErrorModel;
use crate::errors::PipelineError;
use crate::package::Distfile;
use crate::package::DistfileModel;

verus! {

/// What parsing a string as a URL and taking the final segment of its path
/// yields: `None` when the string is not a valid URL or the URL's path has
/// no segments, otherwise the last `/`-separated segment, which may be
/// empty (a path that ends in `/`).
pub uninterp spec fn uri_final_segment(uri: Seq<char>) -> Option<Seq<char>>;

/// Relies on url::Url::parse and url::Url::path_segments (the type that
/// reqwest re-exports as its `Url`): both depend on the URI string alone;
/// `path_segments` is `None` exactly when the URL cannot be a base, and
/// otherwise yields the `/`-separated segments of the path, of which this
/// takes the last.
#[verifier::external_body]
fn final_path_segment(uri: &str) -> (r: Option<String>)
    ensures
        r is Some <==> uri_final_segment(uri@) is Some,
        r matches Some(s) ==> uri_final_segment(uri@) == Some(s@),
{
    match url::Url::parse(uri) {
        Ok(u) => match u.path_segments() {
            Some(mut segments) => match segments.next_back() {
                Some(s) => Some(s.to_string()),
                None => None,
            },
            None => None,
        },
        Err(_) => None,
    }
}

/// The canonical local file name of a distfile: the explicit `name` when
/// one is set, otherwise the last non-empty path segment of the URI, and
/// nothing when the URI gives none.
pub open spec fn resolved_name(d: DistfileModel) -> Option<Seq<char>> {
    match d.name {
        Option::Some(n) => Option::Some(n),
        Option::None => match uri_final_segment(d.uri) {
            Option::Some(s) => if s.len() == 0 {
                Option::None
            } else {
                Option::Some(s)
            },
            Option::None => Option::None,
        },
    }
}

/// Name resolution. An explicit `name` is returned unchanged, whatever the
/// URI holds; otherwise the name is derived from the URI, and a URI without
/// a non-empty final path segment fails. Every call site that needs the
/// name resolves it through this one function.
pub fn resolve_name(d: &Distfile) -> (r: Result<String, PipelineError>)
    ensures
        r is Ok <==> resolved_name(d@) is Some,
        r matches Ok(n) ==> resolved_name(d@) == Some(n@),
        r matches Err(e) ==> e@ == ErrorModel::NameResolution,
        d@.name matches Some(n) ==> r matches Ok(m) && m@ == n,
{
    match &d.name {
        Some(n) => Ok(n.clone()),
        None => match final_path_segment(d.uri.as_str()) {
            Some(s) => {
                if s.as_str().is_empty() {
                    Err(PipelineError::NameResolution)
                } else {
                    Ok(s)
                }
            },
            None => Err(PipelineError::NameResolution),
        },
    }
}

} // verus!
