//! The decisions of each request handler, as steps: a handler either answers
//! at once or asks the server for one piece of outside work (a lookup, an
//! update, a fetch), and a continuation decides the answer from its outcome.

use vstd::prelude::*;
use crate::ids::{parse_uuid, uuid_text, uuid_to_text, uuid_value, uuid_error_text, fresh_uuid};
use crate::destination::{check_destination, destination_verdict, DestinationError};
use crate::link::{Link, LinkView};
use crate::pages::{
    Response, ResponseView, Status, error_page, redirect_to_edit_page, redirect_to_index_page,
    edit_page_link, REDIRECT_TIMEOUT_S,
};
use crate::submission::{submitted_uuid_text, uuid_candidate};

verus! {

/// What a handler does next.
#[derive(Clone, Debug, PartialEq, Eq)]
pub enum Step {
    /// Answer the request.
    Respond(Response),
    /// Look up the stored link with this uuid text.
    FindLink(String),
    /// Fetch the calendar at this address.
    FetchCalendar(String),
    /// Store this link over the one with the same uuid (whose value is given).
    UpdateLink(u128, Link),
    /// Store this new link.
    CreateLink(Link),
    /// Remove the stored link with this uuid text.
    DeleteLink(String),
}

/// A `Step` with its texts as sequences of characters.
pub enum StepView {
    Respond(ResponseView),
    FindLink(Seq<char>),
    FetchCalendar(Seq<char>),
    UpdateLink(u128, LinkView),
    CreateLink(LinkView),
    DeleteLink(Seq<char>),
}

impl View for Step {
    type V = StepView;

    open spec fn view(&self) -> StepView {
        match self {
            Step::Respond(r) => StepView::Respond(r@),
            Step::FindLink(u) => StepView::FindLink(u@),
            Step::FetchCalendar(d) => StepView::FetchCalendar(d@),
            Step::UpdateLink(v, l) => StepView::UpdateLink(*v, l@),
            Step::CreateLink(l) => StepView::CreateLink(l@),
            Step::DeleteLink(u) => StepView::DeleteLink(u@),
        }
    }
}

/// The characters of an optional query parameter.
pub open spec fn param(p: Option<&str>) -> Option<Seq<char>> {
    match p {
        Some(t) => Some(t@),
        None => None,
    }
}

/// Answering with the error page.
pub open spec fn error_answer(status: Status, msg: Seq<char>) -> StepView {
    StepView::Respond(ResponseView::ErrorPage(status, msg))
}

/// The answer to a failed store operation: the error page with status 500.
pub open spec fn db_error_page(e: Seq<char>) -> ResponseView {
    ResponseView::ErrorPage(Status::InternalServerError, "db error: "@ + e)
}

/// The not-yet-stored link with the uuid of value `v` and a destination.
pub open spec fn new_link(v: u128, destination: Seq<char>) -> LinkView {
    LinkView { uuid: uuid_text(v), destination, created_at: None }
}

/// The answer when a required `uuid` parameter is missing or unreadable:
/// the error page with status 400.
pub open spec fn uuid_param_error(uuid: Option<Seq<char>>) -> StepView {
    match uuid {
        None => error_answer(Status::BadRequest, "uuid parameter missing"@),
        Some(u) => error_answer(Status::BadRequest, "uuid parsing error: "@ + uuid_error_text(u)),
    }
}

/// The decision on a required `uuid` parameter: what `then` does with its
/// value when it is present and readable, else `uuid_param_error`.
pub open spec fn with_uuid_param(uuid: Option<Seq<char>>, then: spec_fn(u128) -> StepView) -> StepView {
    match uuid {
        Some(u) => match uuid_value(u) {
            Some(v) => then(v),
            None => uuid_param_error(uuid),
        },
        None => uuid_param_error(uuid),
    }
}

/// The error page for a refused destination.
pub open spec fn destination_error_answer(e: DestinationError) -> StepView {
    match e {
        DestinationError::PointsToProxy => error_answer(Status::BadRequest, "url cannot contain url of ics-proxy"@),
        DestinationError::NotAUrl => error_answer(Status::BadRequest, "could not parse url"@),
    }
}

fn db_error(e: String) -> (r: Response)
    ensures
        r@ == db_error_page(e@),
{
    error_page(String::from_str("db error: ").concat(e.as_str()), Status::InternalServerError)
}

fn destination_refused(e: DestinationError) -> (s: Step)
    ensures
        s@ == destination_error_answer(e),
{
    match e {
        DestinationError::PointsToProxy => Step::Respond(
            error_page(String::from_str("url cannot contain url of ics-proxy"), Status::BadRequest),
        ),
        DestinationError::NotAUrl => Step::Respond(
            error_page(String::from_str("could not parse url"), Status::BadRequest),
        ),
    }
}

/// Reads a required `uuid` parameter; `Err` holds the answer when it is
/// missing or unreadable.
fn read_uuid_param(uuid: Option<&str>) -> (r: Result<u128, Step>)
    ensures
        r matches Ok(v) ==> uuid matches Some(u) && uuid_value(u@) == Some(v),
        r matches Err(s) ==> s@ == uuid_param_error(param(uuid)),
        r is Ok <==> (uuid matches Some(u) && uuid_value(u@) is Some),
{
    match uuid {
        None => Err(Step::Respond(error_page(String::from_str("uuid parameter missing"), Status::BadRequest))),
        Some(u) => match parse_uuid(u) {
            Ok(v) => Ok(v),
            Err(e) => Err(Step::Respond(error_page(
                String::from_str("uuid parsing error: ").concat(e.as_str()),
                Status::BadRequest,
            ))),
        },
    }
}

/// The first step of a calendar request for the path segment `id`.
pub open spec fn ics_request_step(id: Seq<char>) -> StepView {
    match uuid_value(id) {
        None => StepView::Respond(ResponseView::Bare(Status::BadRequest)),
        Some(v) => StepView::FindLink(uuid_text(v)),
    }
}

/// `GET /{id}/events.ics`, first step: an unreadable id is answered with a
/// bare 400; a readable one is looked up by its hyphenated text.
pub fn make_ics_request(id: &str) -> (step: Step)
    ensures
        step@ == ics_request_step(id@),
{
    match parse_uuid(id) {
        Ok(v) => Step::FindLink(uuid_to_text(v)),
        Err(_) => Step::Respond(Response::Bare(Status::BadRequest)),
    }
}

/// `GET /{id}/events.ics`, after the lookup: a found link's calendar is
/// fetched; a failed lookup is answered with a bare 404.
pub fn ics_link_found(found: Result<Link, String>) -> (step: Step)
    ensures
        found matches Ok(l) ==> step@ == StepView::FetchCalendar(l.destination@),
        found is Err ==> step@ == StepView::Respond(ResponseView::Bare(Status::NotFound)),
{
    match found {
        Ok(l) => Step::FetchCalendar(l.destination),
        Err(_) => Step::Respond(Response::Bare(Status::NotFound)),
    }
}

/// `GET /{id}/events.ics`, after the fetch: the calendar text is passed on;
/// a failed fetch is answered with status 500 and the error's text.
pub fn ics_fetched(fetched: Result<String, String>) -> (r: Response)
    ensures
        fetched matches Ok(body) ==> r@ == ResponseView::Calendar(body@),
        fetched matches Err(e) ==> r@ == ResponseView::Text(Status::InternalServerError, e@),
{
    match fetched {
        Ok(body) => Response::Calendar(body),
        Err(e) => Response::Text(Status::InternalServerError, e),
    }
}

/// `GET /edit?uuid=..`, first step: the link of a readable uuid is looked up.
pub fn edit_page(uuid: Option<&str>) -> (step: Step)
    ensures
        step@ == with_uuid_param(param(uuid), |v: u128| StepView::FindLink(uuid_text(v))),
{
    match read_uuid_param(uuid) {
        Ok(v) => Step::FindLink(uuid_to_text(v)),
        Err(s) => s,
    }
}

/// `GET /edit?uuid=..`, after the lookup: the edit page of the found link,
/// or the error page (500) with the store's error.
pub fn edit_page_found(found: Result<Link, String>, root: &str) -> (r: Response)
    ensures
        found matches Ok(l) ==> r@ == (ResponseView::EditPage {
            link: l.destination@,
            uuid: l.uuid@,
            root: root@,
        }),
        found matches Err(e) ==> r@ == db_error_page(e@),
{
    match found {
        Ok(l) => Response::EditPage { link: l.destination, uuid: l.uuid, root: String::from_str(root) },
        Err(e) => db_error(e),
    }
}

/// `GET /delete_process?uuid=..`, first step: the link of a readable uuid is
/// removed.
pub fn delete_process(uuid: Option<&str>) -> (step: Step)
    ensures
        step@ == with_uuid_param(param(uuid), |v: u128| StepView::DeleteLink(uuid_text(v))),
{
    match read_uuid_param(uuid) {
        Ok(v) => Step::DeleteLink(uuid_to_text(v)),
        Err(s) => s,
    }
}

/// `GET /delete_process?uuid=..`, after the removal: back to the start page,
/// or the error page (500) with the store's error.
pub fn delete_done(deleted: Result<u64, String>) -> (r: Response)
    ensures
        deleted is Ok ==> r@ == (ResponseView::Redirect {
            message: "Delete was successful"@,
            link: "/"@,
            time_s: REDIRECT_TIMEOUT_S,
        }),
        deleted matches Err(e) ==> r@ == db_error_page(e@),
{
    match deleted {
        Ok(_) => redirect_to_index_page(String::from_str("Delete was successful"), REDIRECT_TIMEOUT_S),
        Err(e) => db_error(e),
    }
}

/// The decision of `edit_process` on its parameters and the proxy's root.
pub open spec fn edit_process_step(uuid: Option<Seq<char>>, link: Option<Seq<char>>, root: Seq<char>) -> StepView {
    match (uuid, link) {
        (None, _) => error_answer(Status::BadRequest, "uuid parameter missing"@),
        (Some(_), None) => error_answer(Status::BadRequest, "link parameter missing"@),
        (Some(u), Some(d)) => match destination_verdict(d, root) {
            Err(e) => destination_error_answer(e),
            Ok(_) => with_uuid_param(uuid, |v: u128| StepView::UpdateLink(v, new_link(v, d))),
        },
    }
}

/// `GET /edit_process?uuid=..&link=..`, first step: with both parameters,
/// a destination that passes `check_destination` and a readable uuid, the
/// stored link gets the new destination; otherwise the error page (400)
/// names the first problem.
pub fn edit_process(uuid: Option<&str>, link: Option<&str>, root: &str) -> (step: Step)
    ensures
        step@ == edit_process_step(param(uuid), param(link), root@),
{
    if uuid.is_none() {
        return Step::Respond(error_page(String::from_str("uuid parameter missing"), Status::BadRequest));
    }
    let destination = match link {
        Some(d) => d,
        None => {
            return Step::Respond(error_page(String::from_str("link parameter missing"), Status::BadRequest));
        },
    };
    if let Err(e) = check_destination(destination, root) {
        return destination_refused(e);
    }
    match read_uuid_param(uuid) {
        Ok(v) => Step::UpdateLink(v, Link::new(uuid_to_text(v), String::from_str(destination))),
        Err(s) => s,
    }
}

/// `GET /edit_process`, after the update of the link with uuid value `uuid`:
/// on to its edit page, or the error page (500) with the store's error.
pub fn edit_done(uuid: u128, updated: Result<(), String>) -> (r: Response)
    ensures
        updated is Ok ==> r@ == (ResponseView::Redirect {
            message: "Edit successful!"@,
            link: edit_page_link(uuid),
            time_s: REDIRECT_TIMEOUT_S,
        }),
        updated matches Err(e) ==> r@ == db_error_page(e@),
{
    match updated {
        Ok(_) => redirect_to_edit_page(String::from_str("Edit successful!"), uuid, REDIRECT_TIMEOUT_S),
        Err(e) => db_error(e),
    }
}

/// The decision of the start page's "create" submission, for the freshly
/// drawn uuid value `fresh`.
pub open spec fn index_create_step(fresh: u128, link: Option<Seq<char>>, root: Seq<char>) -> StepView {
    match link {
        None => error_answer(Status::BadRequest, "link attribute not set please enter a link"@),
        Some(d) => match destination_verdict(d, root) {
            Err(e) => destination_error_answer(e),
            Ok(_) => StepView::CreateLink(new_link(fresh, d)),
        },
    }
}

/// The answer to the start page's "edit" submission: the uuid read out of
/// the submitted link (see `uuid_candidate`) leads to its edit page.
pub open spec fn index_edit_answer(link: Option<Seq<char>>) -> ResponseView {
    match link {
        None => ResponseView::ErrorPage(Status::BadRequest, "link attribute not set please enter a link"@),
        Some(l) => match uuid_value(uuid_candidate(l)) {
            Some(v) => ResponseView::Redirect {
                message: "Got uuid from submission!"@,
                link: edit_page_link(v),
                time_s: REDIRECT_TIMEOUT_S,
            },
            None => ResponseView::ErrorPage(
                Status::BadRequest,
                "could not parse uuid: "@ + uuid_error_text(uuid_candidate(l)),
            ),
        },
    }
}

/// `GET /index_process?create=..&link=..`, for a freshly drawn uuid value:
/// a destination that passes `check_destination` is stored as a new link
/// under that uuid; otherwise the error page (400) names the problem.
pub fn index_create(fresh: u128, link: Option<&str>, root: &str) -> (step: Step)
    ensures
        step@ == index_create_step(fresh, param(link), root@),
{
    match link {
        None => Step::Respond(
            error_page(String::from_str("link attribute not set please enter a link"), Status::BadRequest),
        ),
        Some(d) => match check_destination(d, root) {
            Err(e) => destination_refused(e),
            Ok(_) => Step::CreateLink(Link::new(uuid_to_text(fresh), String::from_str(d))),
        },
    }
}

/// `GET /index_process?edit=..&link=..`: on to the edit page of the uuid in
/// the submitted link.
pub fn index_edit(link: Option<&str>) -> (r: Response)
    ensures
        r@ == index_edit_answer(param(link)),
{
    match link {
        None => error_page(String::from_str("link attribute not set please enter a link"), Status::BadRequest),
        Some(l) => {
            let candidate = submitted_uuid_text(l);
            match parse_uuid(candidate.as_str()) {
                Ok(v) => redirect_to_edit_page(
                    String::from_str("Got uuid from submission!"),
                    v,
                    REDIRECT_TIMEOUT_S,
                ),
                Err(e) => error_page(
                    String::from_str("could not parse uuid: ").concat(e.as_str()),
                    Status::BadRequest,
                ),
            }
        },
    }
}

/// `GET /index_process`: a "create" submission draws a fresh random version 4
/// uuid and goes on as `index_create`; else an "edit" submission is `index_edit`;
/// else the error page (400).
pub fn index_process(create: bool, edit: bool, link: Option<&str>, root: &str) -> (step: Step)
    ensures
        create ==> exists|fresh: u128|
            (fresh >> 76u128) & 0xfu128 == 4 && (fresh >> 62u128) & 0x3u128 == 2
                && step@ == #[trigger] index_create_step(fresh, param(link), root@),
        !create && edit ==> step@ == StepView::Respond(index_edit_answer(param(link))),
        !create && !edit ==> step@ == error_answer(Status::BadRequest, "missing create or edit form submission!"@),
{
    if create {
        let fresh = fresh_uuid();
        let step = index_create(fresh, link, root);
        assert(step@ == index_create_step(fresh, param(link), root@));
        step
    } else if edit {
        Step::Respond(index_edit(link))
    } else {
        Step::Respond(
            error_page(String::from_str("missing create or edit form submission!"), Status::BadRequest),
        )
    }
}

/// The answer once the store holds the new link `stored`: on to the edit
/// page of its uuid as read back from it.
pub open spec fn created_answer(stored: LinkView) -> ResponseView {
    match uuid_value(stored.uuid) {
        Some(v) => ResponseView::Redirect {
            message: "Create was successful"@,
            link: edit_page_link(v),
            time_s: REDIRECT_TIMEOUT_S,
        },
        None => ResponseView::ErrorPage(Status::BadRequest, "uuid parsing error "@ + uuid_error_text(stored.uuid)),
    }
}

/// `GET /index_process`, after storing the new link: on to the edit page of
/// its uuid as read back from the stored link, or an error page.
pub fn index_created(created: Result<Link, String>) -> (r: Response)
    ensures
        created matches Ok(l) ==> r@ == created_answer(l@),
        created matches Err(e) ==> r@ == db_error_page(e@),
{
    match created {
        Ok(l) => match parse_uuid(l.uuid.as_str()) {
            Ok(v) => redirect_to_edit_page(String::from_str("Create was successful"), v, REDIRECT_TIMEOUT_S),
            Err(e) => error_page(String::from_str("uuid parsing error ").concat(e.as_str()), Status::BadRequest),
        },
        Err(e) => db_error(e),
    }
}

} // verus!
