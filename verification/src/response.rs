//! Rendering a resolved action as the data of an HTTP response: status
//! code, optional `Location` header value, and body. Building the actual
//! response object and serving it belong to the hosting adapter.

use vstd::prelude::*;
use crate::action::{Action, ActionView, Uri};
use crate::resolver::{resolve, resolve_spec};
use crate::routes::production_routes;

verus! {

/// The mathematical value of an [`HttpResponse`].
#[verifier::ext_equal]
pub struct ResponseView {
    pub status: u16,
    pub location: Option<Seq<char>>,
    pub body: Seq<char>,
}

/// The data of an HTTP response, ready for an adapter to serialize: the
/// status code, the value of a `Location` header when one is to be sent,
/// and the body. Every response this library produces is HTML text.
#[derive(Debug, PartialEq, Eq)]
pub struct HttpResponse {
    pub status: u16,
    pub location: Option<String>,
    pub body: String,
}

impl View for HttpResponse {
    type V = ResponseView;

    open spec fn view(&self) -> ResponseView {
        ResponseView {
            status: self.status,
            location: match self.location {
                Some(l) => Some(l@),
                None => None,
            },
            body: self.body@,
        }
    }
}

/// The body sent with a redirect: an HTML meta-refresh fallback pointing at
/// the target, for clients that ignore the `Location` header.
pub open spec fn meta_refresh_body(target: Seq<char>) -> Seq<char> {
    "<head><meta http-equiv=\"Refresh\" content=\"0; URL="@ + target
        + "\" /></head>"@
}

/// How each action is rendered: a redirect becomes status 308 with the
/// target in `Location` and a meta-refresh body; static content is served
/// with status 200; an unknown host is status 404 with its message, or a
/// fixed fallback text when none was given; an error carries its own
/// status code and message.
pub open spec fn render_spec(a: ActionView) -> ResponseView {
    match a {
        ActionView::Redirect(u) => ResponseView {
            status: 308,
            location: Some(u.text),
            body: meta_refresh_body(u.text),
        },
        ActionView::Html(body) => ResponseView { status: 200, location: None, body },
        ActionView::Unknown(Some(message)) => ResponseView {
            status: 404,
            location: None,
            body: message,
        },
        ActionView::Unknown(None) => ResponseView {
            status: 404,
            location: None,
            body: "Unknown host or uri"@,
        },
        ActionView::Error(code, message) => ResponseView {
            status: code,
            location: None,
            body: message,
        },
    }
}

/// Render one resolved action as response data.
pub fn render_response(action: Action) -> (r: HttpResponse)
    ensures
        r@ == render_spec(action@),
{
    match action {
        Action::Redirect(uri) => {
            let body = String::from_str("<head><meta http-equiv=\"Refresh\" content=\"0; URL=")
                .concat(uri.text.as_str())
                .concat("\" /></head>");
            HttpResponse { status: 308, location: Some(uri.text), body }
        },
        Action::Html(body) => HttpResponse { status: 200, location: None, body },
        Action::Unknown(Some(message)) => HttpResponse {
            status: 404,
            location: None,
            body: message,
        },
        Action::Unknown(None) => HttpResponse {
            status: 404,
            location: None,
            body: String::from_str("Unknown host or uri"),
        },
        Action::Error(code, message) => HttpResponse {
            status: code,
            location: None,
            body: message,
        },
    }
}

/// The action a response is rendered from, given the resolver's outcome: a
/// resolved action as it stands, or the loop error as a status-500 action.
pub open spec fn outcome_action(r: Result<ActionView, ()>) -> ActionView {
    match r {
        Ok(a) => a,
        Err(_) => ActionView::Error(
            500,
            "Too many internal redirects. Aborting early to avoid recursion."@,
        ),
    }
}

/// Match hostnames and uris, returning redirects or body content: resolve
/// `uri` against the routes this service ships with and render the outcome.
pub fn handle(uri: &Uri) -> (r: HttpResponse)
    ensures
        r@ == render_spec(outcome_action(resolve_spec(production_routes(), uri@))),
{
    let action = match resolve(uri) {
        Ok(a) => a,
        Err(e) => Action::Error(500, e),
    };
    render_response(action)
}

} // verus!
