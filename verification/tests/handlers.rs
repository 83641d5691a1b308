use ics_proxy::handlers::{
    delete_done, delete_process, edit_done, edit_page, edit_page_found, edit_process, ics_fetched,
    ics_link_found, index_create, index_created, index_edit, index_process, make_ics_request, Step,
};
use ics_proxy::link::Link;
use ics_proxy::pages::{Response, Status};

const ROOT: &str = "http://localhost:8080";
const UUID: &str = "67e55044-10b1-426f-9247-bb680e5fe0c8";
const UUID_VALUE: u128 = 0x67e5504410b1426f9247bb680e5fe0c8;

fn stored(uuid: &str, destination: &str) -> Link {
    Link::new(uuid.to_string(), destination.to_string()).created("2024-01-01T00:00:00+00:00".to_string())
}

fn error_page(status: Status, msg: &str) -> Response {
    Response::ErrorPage(status, msg.to_string())
}

fn redirect(message: &str, link: &str) -> Response {
    Response::Redirect { message: message.to_string(), link: link.to_string(), time_s: 2 }
}

// The scenarios of the original server tests, with the store and the
// network played by the test.

#[test]
fn test_make_ics_request_destination_does_not_exist() {
    let link = stored(UUID, "http://calendar.example/calendar.ics");
    assert_eq!(make_ics_request(UUID), Step::FindLink(UUID.to_string()));
    assert_eq!(
        ics_link_found(Ok(link)),
        Step::FetchCalendar("http://calendar.example/calendar.ics".to_string())
    );
    let r = ics_fetched(Err("error sending request".to_string()));
    assert!(r.status().code() >= 500);
}

#[test]
fn test_edit_page() {
    let destination = "http://calendar.example/";
    assert_eq!(edit_page(Some(UUID)), Step::FindLink(UUID.to_string()));
    let r = edit_page_found(Ok(stored(UUID, destination)), ROOT);
    assert_eq!(r.status(), Status::Success);
    assert_eq!(
        r,
        Response::EditPage { link: destination.to_string(), uuid: UUID.to_string(), root: ROOT.to_string() }
    );
}

#[test]
fn test_index_process_create() {
    let step = index_process(true, false, Some("https://example.com/calendar.ics"), ROOT);
    let link = match step {
        Step::CreateLink(l) => l,
        other => panic!("expected a new link, got {:?}", other),
    };
    assert_eq!(link.destination, "https://example.com/calendar.ics");
    assert_eq!(link.created_at, None);
    let uuid = link.uuid.clone();
    assert_eq!(uuid.len(), 36);
    let r = index_created(Ok(link.created("2024-01-01T00:00:00+00:00".to_string())));
    assert_eq!(r.status(), Status::Success);
    assert_eq!(r, redirect("Create was successful", &format!("/edit?uuid={}", uuid)));
}

#[test]
fn test_edit_process() {
    let step = edit_process(Some(UUID), Some("https://example.com/new.ics"), ROOT);
    assert_eq!(
        step,
        Step::UpdateLink(UUID_VALUE, Link::new(UUID.to_string(), "https://example.com/new.ics".to_string()))
    );
    let r = edit_done(UUID_VALUE, Ok(()));
    assert_eq!(r.status(), Status::Success);
    assert_eq!(r, redirect("Edit successful!", &format!("/edit?uuid={}", UUID)));
}

#[test]
fn test_edit_missing_uuid() {
    assert_eq!(edit_page(Some(UUID)), Step::FindLink(UUID.to_string()));
    let r = edit_page_found(Err("no rows returned by a query that expected to return at least one row".to_string()), ROOT);
    assert!(r.status().code() >= 500);
}

#[test]
fn test_delete_process() {
    assert_eq!(delete_process(Some(UUID)), Step::DeleteLink(UUID.to_string()));
    let r = delete_done(Ok(1));
    assert_eq!(r.status(), Status::Success);
    assert_eq!(r, redirect("Delete was successful", "/"));
}

#[test]
fn test_proxy_request() {
    let calendar_data = "BEGIN:VCALENDAR\nEND:VCALENDAR";
    let step = make_ics_request(UUID);
    assert_eq!(step, Step::FindLink(UUID.to_string()));
    let destination = "http://127.0.0.1:1234/calendar.ics";
    assert_eq!(ics_link_found(Ok(stored(UUID, destination))), Step::FetchCalendar(destination.to_string()));
    let r = ics_fetched(Ok(calendar_data.to_string()));
    assert_eq!(r.status(), Status::Success);
    assert_eq!(r, Response::Calendar(calendar_data.to_string()));
}

// Calendar requests.

#[test]
fn ics_request_with_unreadable_id_is_a_bare_bad_request() {
    assert_eq!(make_ics_request("not-a-uuid"), Step::Respond(Response::Bare(Status::BadRequest)));
    assert_eq!(make_ics_request(""), Step::Respond(Response::Bare(Status::BadRequest)));
}

#[test]
fn ics_request_reads_other_uuid_forms_as_the_hyphenated_text() {
    let found = Step::FindLink(UUID.to_string());
    assert_eq!(make_ics_request("67E55044-10B1-426F-9247-BB680E5FE0C8"), found);
    assert_eq!(make_ics_request("67e5504410b1426f9247bb680e5fe0c8"), found);
    assert_eq!(make_ics_request("{67e55044-10b1-426f-9247-bb680e5fe0c8}"), found);
    assert_eq!(make_ics_request("urn:uuid:67e55044-10b1-426f-9247-bb680e5fe0c8"), found);
}

#[test]
fn ics_request_for_unknown_link_is_not_found() {
    let step = ics_link_found(Err("no rows".to_string()));
    assert_eq!(step, Step::Respond(Response::Bare(Status::NotFound)));
}

#[test]
fn failed_fetch_answers_500_with_the_error_text() {
    assert_eq!(
        ics_fetched(Err("connection refused".to_string())),
        Response::Text(Status::InternalServerError, "connection refused".to_string())
    );
}

// Edit page and deletion.

#[test]
fn edit_page_without_uuid_is_refused() {
    assert_eq!(
        edit_page(None),
        Step::Respond(error_page(Status::BadRequest, "uuid parameter missing"))
    );
}

#[test]
fn edit_page_with_unreadable_uuid_names_the_parse_error() {
    // one hex digit short in the last group
    assert_eq!(
        edit_page(Some("9228c1a4-8956-4f1c-8b5f-53cc575bd78")),
        Step::Respond(error_page(
            Status::BadRequest,
            "uuid parsing error: invalid group length in group 4: expected 12, found 11"
        ))
    );
}

#[test]
fn delete_with_store_error_answers_500() {
    assert_eq!(delete_process(None), Step::Respond(error_page(Status::BadRequest, "uuid parameter missing")));
    assert_eq!(
        delete_done(Err("database is locked".to_string())),
        error_page(Status::InternalServerError, "db error: database is locked")
    );
}

// Edit form.

#[test]
fn edit_process_refusals_come_in_order() {
    assert_eq!(
        edit_process(None, None, ROOT),
        Step::Respond(error_page(Status::BadRequest, "uuid parameter missing"))
    );
    assert_eq!(
        edit_process(Some(UUID), None, ROOT),
        Step::Respond(error_page(Status::BadRequest, "link parameter missing"))
    );
    assert_eq!(
        edit_process(Some("nope"), Some("http://localhost:8080/x/events.ics"), ROOT),
        Step::Respond(error_page(Status::BadRequest, "url cannot contain url of ics-proxy"))
    );
    assert_eq!(
        edit_process(Some("nope"), Some("not a url"), ROOT),
        Step::Respond(error_page(Status::BadRequest, "could not parse url"))
    );
    assert_eq!(
        edit_process(Some("nope"), Some("https://example.com/a.ics"), ROOT),
        Step::Respond(error_page(Status::BadRequest, "uuid parsing error: invalid character: found `n` at 0"))
    );
}

#[test]
fn edit_stores_the_hyphenated_lowercase_uuid() {
    let step = edit_process(Some("67E5504410B1426F9247BB680E5FE0C8"), Some("https://example.com/a.ics"), ROOT);
    assert_eq!(
        step,
        Step::UpdateLink(UUID_VALUE, Link::new(UUID.to_string(), "https://example.com/a.ics".to_string()))
    );
    assert_eq!(
        edit_done(UUID_VALUE, Err("disk full".to_string())),
        error_page(Status::InternalServerError, "db error: disk full")
    );
}

// Start page.

#[test]
fn index_create_uses_the_given_uuid() {
    assert_eq!(
        index_create(UUID_VALUE, Some("https://example.com/a.ics"), ROOT),
        Step::CreateLink(Link::new(UUID.to_string(), "https://example.com/a.ics".to_string()))
    );
    assert_eq!(
        index_create(UUID_VALUE, None, ROOT),
        Step::Respond(error_page(Status::BadRequest, "link attribute not set please enter a link"))
    );
    assert_eq!(
        index_create(UUID_VALUE, Some("http://localhost:8080"), ROOT),
        Step::Respond(error_page(Status::BadRequest, "url cannot contain url of ics-proxy"))
    );
    assert_eq!(
        index_create(UUID_VALUE, Some("/relative/path"), ROOT),
        Step::Respond(error_page(Status::BadRequest, "could not parse url"))
    );
}

#[test]
fn index_create_draws_a_version_4_uuid() {
    match index_process(true, true, Some("https://example.com/a.ics"), ROOT) {
        Step::CreateLink(l) => {
            let v = uuid::Uuid::parse_str(&l.uuid).unwrap();
            assert_eq!(v.get_version_num(), 4);
            assert_eq!(l.uuid, v.hyphenated().to_string());
        }
        other => panic!("expected a new link, got {:?}", other),
    }
}

#[test]
fn index_edit_reads_the_uuid_of_a_proxy_address() {
    let expected = redirect("Got uuid from submission!", &format!("/edit?uuid={}", UUID));
    assert_eq!(index_edit(Some("https://ics-proxy.de/67e55044-10b1-426f-9247-bb680e5fe0c8/events.ics")), expected);
    assert_eq!(index_edit(Some(UUID)), expected);
    assert_eq!(index_process(false, true, Some(UUID), ROOT), Step::Respond(expected));
}

#[test]
fn index_edit_refusals() {
    assert_eq!(
        index_edit(None),
        error_page(Status::BadRequest, "link attribute not set please enter a link")
    );
    assert_eq!(
        index_edit(Some("https://example.com/calendar.ics")),
        error_page(Status::BadRequest, "could not parse uuid: invalid character: found `x` at 1")
    );
}

#[test]
fn index_process_without_submission_is_refused() {
    assert_eq!(
        index_process(false, false, Some(UUID), ROOT),
        Step::Respond(error_page(Status::BadRequest, "missing create or edit form submission!"))
    );
}

#[test]
fn index_created_outcomes() {
    assert_eq!(
        index_created(Err("UNIQUE constraint failed".to_string())),
        error_page(Status::InternalServerError, "db error: UNIQUE constraint failed")
    );
    assert_eq!(
        index_created(Ok(stored("zz", "https://example.com/a.ics"))),
        error_page(Status::BadRequest, "uuid parsing error invalid character: found `z` at 0")
    );
}
