//! A stored calendar link: the uuid under which the proxy serves a calendar
//! and the address it fetches that calendar from.

use vstd::prelude::*;

verus! {

/// A calendar link as the store keeps it.
#[derive(Clone, Debug, PartialEq, Eq)]
pub struct Link {
    /// The hyphenated uuid the link is served under.
    pub uuid: String,
    /// The address of the calendar that the proxy fetches.
    pub destination: String,
    /// When the link was created (RFC 3339), where known.
    pub created_at: Option<String>,
}

/// A `Link` with its texts as sequences of characters.
pub struct LinkView {
    pub uuid: Seq<char>,
    pub destination: Seq<char>,
    pub created_at: Option<Seq<char>>,
}

/// The characters of an optional text.
pub open spec fn opt_text(s: Option<String>) -> Option<Seq<char>> {
    match s {
        Some(t) => Some(t@),
        None => None,
    }
}

impl View for Link {
    type V = LinkView;

    open spec fn view(&self) -> LinkView {
        LinkView { uuid: self.uuid@, destination: self.destination@, created_at: opt_text(self.created_at) }
    }
}

impl Link {
    /// A link not yet stored: no creation time.
    pub fn new(uuid: String, destination: String) -> (l: Link)
        ensures
            l@ == (LinkView { uuid: uuid@, destination: destination@, created_at: None }),
    {
        Link { uuid, destination, created_at: None }
    }

    /// The link as storing it gives it back: the same uuid and destination,
    /// stamped with the creation time `now`.
    pub fn created(self, now: String) -> (l: Link)
        ensures
            l@ == (LinkView { uuid: self@.uuid, destination: self@.destination, created_at: Some(now@) }),
    {
        Link { uuid: self.uuid, destination: self.destination, created_at: Some(now) }
    }
}

} // verus!
