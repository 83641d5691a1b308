//! What a request is answered with. Templates are filled in by the server;
//! here stands which page, with which values and which status.

use vstd::prelude::*;
use crate::ids::{uuid_text, uuid_to_text};

verus! {

/// Seconds a redirect page waits before it moves on.
pub const REDIRECT_TIMEOUT_S: i32 = 2;

/// The HTTP statuses the proxy answers with.
#[derive(Clone, Copy, Debug, PartialEq, Eq, Structural)]
pub enum Status {
    Success,
    BadRequest,
    NotFound,
    InternalServerError,
}

impl Status {
    /// The numeric HTTP status code.
    pub open spec fn code_of(self) -> u16 {
        match self {
            Status::Success => 200,
            Status::BadRequest => 400,
            Status::NotFound => 404,
            Status::InternalServerError => 500,
        }
    }

    /// The numeric HTTP status code.
    pub fn code(&self) -> (c: u16)
        ensures
            c == self.code_of(),
    {
        match self {
            Status::Success => 200,
            Status::BadRequest => 400,
            Status::NotFound => 404,
            Status::InternalServerError => 500,
        }
    }
}

/// An answer to a request.
#[derive(Clone, Debug, PartialEq, Eq)]
pub enum Response {
    /// A status with an empty body.
    Bare(Status),
    /// A status with a plain-text body.
    Text(Status, String),
    /// A calendar (`text/calendar`), status 200.
    Calendar(String),
    /// The error page (`error.html`) showing a message, with a status.
    ErrorPage(Status, String),
    /// The redirect page (`redirect.html`), status 200: shows `message`, then
    /// moves to `link` after `time_s` seconds.
    Redirect { message: String, link: String, time_s: i32 },
    /// The edit page (`edit.html`) of a link, status 200.
    EditPage { link: String, uuid: String, root: String },
    /// The start page (`index.html`), status 200.
    IndexPage,
}

/// A `Response` with its texts as sequences of characters.
pub enum ResponseView {
    Bare(Status),
    Text(Status, Seq<char>),
    Calendar(Seq<char>),
    ErrorPage(Status, Seq<char>),
    Redirect { message: Seq<char>, link: Seq<char>, time_s: i32 },
    EditPage { link: Seq<char>, uuid: Seq<char>, root: Seq<char> },
    IndexPage,
}

impl View for Response {
    type V = ResponseView;

    open spec fn view(&self) -> ResponseView {
        match self {
            Response::Bare(s) => ResponseView::Bare(*s),
            Response::Text(s, b) => ResponseView::Text(*s, b@),
            Response::Calendar(b) => ResponseView::Calendar(b@),
            Response::ErrorPage(s, m) => ResponseView::ErrorPage(*s, m@),
            Response::Redirect { message, link, time_s } => ResponseView::Redirect {
                message: message@,
                link: link@,
                time_s: *time_s,
            },
            Response::EditPage { link, uuid, root } => ResponseView::EditPage {
                link: link@,
                uuid: uuid@,
                root: root@,
            },
            Response::IndexPage => ResponseView::IndexPage,
        }
    }
}

impl ResponseView {
    /// The HTTP status the answer carries.
    pub open spec fn status(self) -> Status {
        match self {
            ResponseView::Bare(s) => s,
            ResponseView::Text(s, _) => s,
            ResponseView::ErrorPage(s, _) => s,
            _ => Status::Success,
        }
    }
}

impl Response {
    /// The HTTP status the answer carries.
    pub fn status(&self) -> (s: Status)
        ensures
            s == self@.status(),
    {
        match self {
            Response::Bare(s) => *s,
            Response::Text(s, _) => *s,
            Response::ErrorPage(s, _) => *s,
            _ => Status::Success,
        }
    }
}

/// The link of the edit page of the uuid with value `uuid`.
pub open spec fn edit_page_link(uuid: u128) -> Seq<char> {
    "/edit?uuid="@ + uuid_text(uuid)
}

/// The error page with a message and a status.
pub fn error_page(msg: String, status_code: Status) -> (r: Response)
    ensures
        r@ == ResponseView::ErrorPage(status_code, msg@),
{
    Response::ErrorPage(status_code, msg)
}

/// The redirect page: shows `message`, then moves to `link` after `time_s`
/// seconds.
pub fn redirect_to_page(message: String, link: String, time_s: i32) -> (r: Response)
    ensures
        r@ == (ResponseView::Redirect { message: message@, link: link@, time_s }),
{
    Response::Redirect { message, link, time_s }
}

/// The redirect page that moves on to the edit page of `uuid`.
pub fn redirect_to_edit_page(message: String, uuid: u128, time_s: i32) -> (r: Response)
    ensures
        r@ == (ResponseView::Redirect { message: message@, link: edit_page_link(uuid), time_s }),
{
    let link = String::from_str("/edit?uuid=").concat(uuid_to_text(uuid).as_str());
    redirect_to_page(message, link, time_s)
}

/// The redirect page that moves on to the start page.
pub fn redirect_to_index_page(message: String, time_s: i32) -> (r: Response)
    ensures
        r@ == (ResponseView::Redirect { message: message@, link: "/"@, time_s }),
{
    redirect_to_page(message, String::from_str("/"), time_s)
}

/// The start page.
pub fn index() -> (r: Response)
    ensures
        r@ == ResponseView::IndexPage,
{
    Response::IndexPage
}

} // verus!
