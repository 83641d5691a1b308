//! Properties of the handlers as a whole, over every input.

use vstd::prelude::*;
use crate::ids::{is_uuid_text, uuid_text, uuid_value, lemma_uuid_text_slash_free};
use crate::destination::{destination_verdict, url_parses, DestinationError};
use crate::clock::cutoff_secs;
use crate::link::LinkView;
use crate::pages::{ResponseView, Status, edit_page_link, REDIRECT_TIMEOUT_S};
use crate::submission::{slash_free, lemma_proxy_link_submits_uuid, lemma_bare_uuid_submitted};
use crate::handlers::{
    StepView, ics_request_step, with_uuid_param, edit_process_step, index_create_step, index_edit_answer,
    created_answer, new_link,
};

verus! {

/// The hyphenated text of a uuid reads back as a uuid with that same text.
proof fn lemma_uuid_text_reads_back(u: Seq<char>)
    requires
        is_uuid_text(u),
    ensures
        uuid_value(u) is Some,
        uuid_text(uuid_value(u)->0) == u,
        edit_page_link(uuid_value(u)->0) == "/edit?uuid="@ + u,
        slash_free(u),
{
    let v = choose|v: u128| uuid_text(v) == u;
    lemma_uuid_text_slash_free(v);
}

/// The redirect of the "edit" submission to the edit page of `u`.
pub open spec fn submission_redirect(u: Seq<char>) -> ResponseView {
    ResponseView::Redirect {
        message: "Got uuid from submission!"@,
        link: "/edit?uuid="@ + u,
        time_s: REDIRECT_TIMEOUT_S,
    }
}

/// Submitting, in the start page's "edit" form, any address that ends in
/// `/<uuid>/<file>` (such as the proxy's calendar address
/// `<root>/<uuid>/events.ics`) leads to the edit page of that uuid, and so
/// does submitting the bare uuid.
pub proof fn law_submitted_address_leads_to_edit_page(prefix: Seq<char>, u: Seq<char>, file: Seq<char>)
    requires
        is_uuid_text(u),
        slash_free(file),
    ensures
        index_edit_answer(Some(prefix + seq!['/'] + u + seq!['/'] + file)) == submission_redirect(u),
        index_edit_answer(Some(u)) == submission_redirect(u),
{
    lemma_uuid_text_reads_back(u);
    lemma_proxy_link_submits_uuid(prefix, u, file);
    lemma_bare_uuid_submitted(u);
}

/// A calendar request or an edit page for the hyphenated text of a uuid
/// looks up exactly that text.
pub proof fn law_uuid_text_is_looked_up_as_is(u: Seq<char>)
    requires
        is_uuid_text(u),
    ensures
        ics_request_step(u) == StepView::FindLink(u),
        with_uuid_param(Some(u), |v: u128| StepView::FindLink(uuid_text(v))) == StepView::FindLink(u),
        with_uuid_param(Some(u), |v: u128| StepView::DeleteLink(uuid_text(v))) == StepView::DeleteLink(u),
{
    lemma_uuid_text_reads_back(u);
}

/// Editing a link with an accepted destination stores that destination under
/// the same uuid text, so the calendar address that clients already hold
/// keeps working; the answer then leads to the edit page of that uuid.
pub proof fn law_edit_keeps_the_uuid(u: Seq<char>, destination: Seq<char>, root: Seq<char>)
    requires
        is_uuid_text(u),
        destination_verdict(destination, root) is Ok,
    ensures
        edit_process_step(Some(u), Some(destination), root) matches StepView::UpdateLink(v, l)
            && l == (LinkView { uuid: u, destination, created_at: None })
            && edit_page_link(v) == "/edit?uuid="@ + u,
{
    lemma_uuid_text_reads_back(u);
}

/// Creating a link with an accepted destination stores it under the freshly
/// drawn uuid, and once stored (whatever creation time the store gives it)
/// the answer leads to the edit page of that same uuid.
pub proof fn law_create_leads_to_edit_page_of_new_link(
    fresh: u128,
    destination: Seq<char>,
    root: Seq<char>,
    now: Seq<char>,
)
    requires
        destination_verdict(destination, root) is Ok,
    ensures
        index_create_step(fresh, Some(destination), root) == StepView::CreateLink(new_link(fresh, destination)),
        created_answer(LinkView { created_at: Some(now), ..new_link(fresh, destination) })
            == (ResponseView::Redirect {
            message: "Create was successful"@,
            link: edit_page_link(fresh),
            time_s: REDIRECT_TIMEOUT_S,
        }),
{
    assert(is_uuid_text(uuid_text(fresh)));
    lemma_uuid_text_reads_back(uuid_text(fresh));
}

/// Whether every uuid that a step hands to the store is a hyphenated
/// lowercase uuid text (the form links are stored under).
pub open spec fn store_keys_canonical(step: StepView) -> bool {
    match step {
        StepView::FindLink(k) => is_uuid_text(k),
        StepView::DeleteLink(k) => is_uuid_text(k),
        StepView::UpdateLink(v, l) => l.uuid == uuid_text(v),
        StepView::CreateLink(l) => is_uuid_text(l.uuid),
        _ => true,
    }
}

/// Whether every destination that a step hands to the store passed the
/// destination check against `root`: it does not point back into the proxy
/// and it parses as a URL.
pub open spec fn stored_destinations_checked(step: StepView, root: Seq<char>) -> bool {
    match step {
        StepView::UpdateLink(_, l) => !root.is_prefix_of(l.destination) && url_parses(l.destination),
        StepView::CreateLink(l) => !root.is_prefix_of(l.destination) && url_parses(l.destination),
        _ => true,
    }
}

/// Whether a step that answers at once answers with status 400.
pub open spec fn answers_are_bad_requests(step: StepView) -> bool {
    step matches StepView::Respond(r) ==> r.status() == Status::BadRequest
}

/// Every first step of a handler looks up, removes, updates and creates
/// links only under hyphenated lowercase uuid texts, stores only checked
/// destinations, and refuses its input only with status 400.
pub proof fn law_first_steps_are_safe(
    id: Seq<char>,
    uuid: Option<Seq<char>>,
    link: Option<Seq<char>>,
    root: Seq<char>,
    fresh: u128,
)
    ensures
        store_keys_canonical(ics_request_step(id)),
        answers_are_bad_requests(ics_request_step(id)),
        store_keys_canonical(with_uuid_param(uuid, |v: u128| StepView::FindLink(uuid_text(v)))),
        answers_are_bad_requests(with_uuid_param(uuid, |v: u128| StepView::FindLink(uuid_text(v)))),
        store_keys_canonical(with_uuid_param(uuid, |v: u128| StepView::DeleteLink(uuid_text(v)))),
        answers_are_bad_requests(with_uuid_param(uuid, |v: u128| StepView::DeleteLink(uuid_text(v)))),
        store_keys_canonical(edit_process_step(uuid, link, root)),
        stored_destinations_checked(edit_process_step(uuid, link, root), root),
        answers_are_bad_requests(edit_process_step(uuid, link, root)),
        store_keys_canonical(index_create_step(fresh, link, root)),
        stored_destinations_checked(index_create_step(fresh, link, root), root),
        answers_are_bad_requests(index_create_step(fresh, link, root)),
{
    assert(is_uuid_text(uuid_text(fresh)));
    if let Some(v) = uuid_value(id) {
        assert(is_uuid_text(uuid_text(v)));
    }
    if let Some(u) = uuid {
        if let Some(v) = uuid_value(u) {
            assert(is_uuid_text(uuid_text(v)));
        }
    }
}

/// A destination is accepted exactly when it does not start with the proxy's
/// root and `url::Url::parse` accepts it; it is refused as pointing to the
/// proxy exactly when it starts with the root, and as no URL exactly when it
/// does not start with the root and does not parse.
pub proof fn law_destination_is_exactly_the_two_checks(destination: Seq<char>, root: Seq<char>)
    ensures
        destination_verdict(destination, root) is Ok
            <==> !root.is_prefix_of(destination) && url_parses(destination),
        destination_verdict(destination, root) == Err::<(), DestinationError>(DestinationError::PointsToProxy)
            <==> root.is_prefix_of(destination),
        destination_verdict(destination, root) == Err::<(), DestinationError>(DestinationError::NotAUrl)
            <==> !root.is_prefix_of(destination) && !url_parses(destination),
{
}

/// The cleanup cutoff lies exactly 90 days (7 776 000 seconds) before the
/// current time: strictly earlier, and moving the clock moves the cutoff by
/// the same amount.
pub proof fn law_cutoff_is_ninety_days_before_now(now_secs: i64, later_secs: i64)
    ensures
        cutoff_secs(now_secs) == now_secs - 90 * 86400,
        cutoff_secs(now_secs) < now_secs,
        cutoff_secs(later_secs) - cutoff_secs(now_secs) == later_secs - now_secs,
{
}

} // verus!
