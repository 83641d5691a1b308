//! Which calendar addresses may be stored as the destination of a link.

use vstd::prelude::*;
use crate::text::has_prefix;

verus! {

/// Whether `url::Url::parse` accepts `text` as an absolute URL.
pub uninterp spec fn url_parses(text: Seq<char>) -> bool;

/// Calls `url::Url::parse` and tells whether it succeeded. Trusted: the
/// answer is `url_parses` of the text.
#[verifier::external_body]
fn url_is_valid(text: &str) -> (ok: bool)
    ensures
        ok == url_parses(text@),
{
    url::Url::parse(text).is_ok()
}

/// Why a destination was refused.
#[derive(Clone, Copy, Debug, PartialEq, Eq, Structural)]
pub enum DestinationError {
    /// The address points back into this proxy (it starts with its root).
    PointsToProxy,
    /// The address is not an absolute URL.
    NotAUrl,
}

/// The verdict on a destination, given the proxy's own root address.
pub open spec fn destination_verdict(destination: Seq<char>, root: Seq<char>) -> Result<(), DestinationError> {
    if root.is_prefix_of(destination) {
        Err(DestinationError::PointsToProxy)
    } else if !url_parses(destination) {
        Err(DestinationError::NotAUrl)
    } else {
        Ok(())
    }
}

/// Checks a destination: it must not start with the proxy's root (a link
/// to the proxy itself would loop) and it must parse as a URL; the first
/// failing check decides.
pub fn check_destination(destination: &str, root: &str) -> (r: Result<(), DestinationError>)
    ensures
        r == destination_verdict(destination@, root@),
        r is Ok <==> !root@.is_prefix_of(destination@) && url_parses(destination@),
        r == Err::<(), DestinationError>(DestinationError::PointsToProxy) <==> root@.is_prefix_of(destination@),
{
    if has_prefix(destination, root) {
        return Err(DestinationError::PointsToProxy);
    }
    if !url_is_valid(destination) {
        return Err(DestinationError::NotAUrl);
    }
    Ok(())
}

} // verus!
