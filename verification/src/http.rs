//! The exchanges with the Sentry API: what is sent, and what is made of the answer.

use vstd::prelude::*;

use crate::json::{parse_json, parsed_json, Json, JsonView};
use crate::protocol::{result_view, BackendError, BackendErrorView};
use crate::text::{blank, concat2, concat3, decimal, is_blank};

verus! {

#[derive(Debug, Clone, Copy, PartialEq, Eq, Structural)]
pub enum Method {
    Get,
    Put,
}

/// A request to the Sentry API.
#[derive(Debug, PartialEq)]
pub struct HttpRequest {
    pub method: Method,
    /// Where the request goes below the base of the API.
    pub path: String,
    /// Where the request goes.
    pub url: String,
    pub headers: Vec<(String, String)>,
    /// The token that authorizes the request.
    pub bearer_token: String,
    /// The value that is sent along, as JSON.
    pub body: Option<Json>,
}

/// What an [`HttpRequest`] holds.
#[verifier::ext_equal]
pub struct HttpRequestView {
    pub method: Method,
    pub path: Seq<char>,
    pub url: Seq<char>,
    pub headers: Seq<(Seq<char>, Seq<char>)>,
    pub bearer_token: Seq<char>,
    pub body: Option<JsonView>,
}

impl DeepView for HttpRequest {
    type V = HttpRequestView;

    open spec fn deep_view(&self) -> HttpRequestView {
        HttpRequestView {
            method: self.method,
            path: self.path@,
            url: self.url@,
            headers: self.headers.deep_view(),
            bearer_token: self.bearer_token@,
            body: self.body.deep_view(),
        }
    }
}

/// What came of sending a request.
#[derive(Debug, PartialEq, Eq)]
pub enum Exchange {
    /// No answer came, or not all of it; with the reason.
    Failed(String),
    Answered { status: u16, text: String },
}

/// What an [`Exchange`] holds.
pub enum ExchangeView {
    Failed(Seq<char>),
    Answered { status: u16, text: Seq<char> },
}

impl DeepView for Exchange {
    type V = ExchangeView;

    open spec fn deep_view(&self) -> ExchangeView {
        match self {
            Exchange::Failed(reason) => ExchangeView::Failed(reason@),
            Exchange::Answered { status, text } => ExchangeView::Answered {
                status: *status,
                text: text@,
            },
        }
    }
}

/// A number that can be an HTTP status.
pub open spec fn is_status(status: u16) -> bool {
    100 <= status <= 999
}

impl ExchangeView {
    /// An answer has a status.
    pub open spec fn well_formed(self) -> bool {
        self matches ExchangeView::Answered { status, .. } ==> is_status(status)
    }
}

/// The reason phrase that `reqwest::StatusCode` displays behind the number of a status.
pub uninterp spec fn status_reason(status: u16) -> Seq<char>;

/// A status as it is shown: its number, a space and its reason phrase.
pub open spec fn shown_status(status: u16) -> Seq<char> {
    decimal(status as nat) + " "@ + status_reason(status)
}

/// Displays a status with `reqwest::StatusCode`: the number, a space, and the canonical reason of
/// the status or a fixed phrase where it has none. The phrase is the one that [`status_reason`]
/// names.
#[verifier::external_body]
fn show_status(status: u16) -> (r: String)
    requires
        is_status(status),
    ensures
        r@ == decimal(status as nat) + " "@ + status_reason(status),
{
    reqwest::StatusCode::from_u16(status).unwrap().to_string()
}

/// The error that a status stands for; a status of success stands for none.
pub open spec fn fault_of_status(
    path: Seq<char>,
    status: u16,
    shown: Seq<char>,
    text: Seq<char>,
) -> Option<BackendErrorView> {
    if status == 404 {
        Some(BackendErrorView::NotFound(path))
    } else if status == 401 || status == 403 {
        Some(BackendErrorView::PermissionDenied("Sentry API returned "@ + shown + ": "@ + text))
    } else if status == 429 {
        Some(BackendErrorView::Unavailable("Sentry API rate limited request: "@ + text))
    } else if !(200 <= status < 300) {
        Some(BackendErrorView::Unavailable("Sentry API returned "@ + shown + ": "@ + text))
    } else {
        None
    }
}

/// The value of an answer, given how its text was parsed; nothing was parsed where it is blank.
pub open spec fn value_or_error(parsed: Option<Result<JsonView, Seq<char>>>) -> Result<
    JsonView,
    BackendErrorView,
> {
    match parsed {
        None => Ok(JsonView::Null),
        Some(Ok(value)) => Ok(value),
        Some(Err(message)) => Err(BackendErrorView::Other(message)),
    }
}

/// The value that an exchange over `path` brings.
pub open spec fn value_of_exchange(path: Seq<char>, exchange: ExchangeView) -> Result<
    JsonView,
    BackendErrorView,
> {
    match exchange {
        ExchangeView::Failed(reason) => Err(BackendErrorView::Unavailable(reason)),
        ExchangeView::Answered { status, text } => match fault_of_status(
            path,
            status,
            shown_status(status),
            text,
        ) {
            Some(e) => Err(e),
            None => value_or_error(
                if is_blank(text) {
                    None
                } else {
                    Some(parsed_json(text))
                },
            ),
        },
    }
}

fn returned(shown: &str, text: &str) -> (r: String)
    ensures
        r@ == "Sentry API returned "@ + shown@ + ": "@ + text@,
{
    concat2(concat3("Sentry API returned ", shown, ": ").as_str(), text)
}

/// The error that a status stands for, given how the status is shown; see [`fault_of_status`].
pub fn status_fault(path: &str, status: u16, shown: &str, text: &str) -> (r: Option<BackendError>)
    ensures
        r.deep_view() == fault_of_status(path@, status, shown@, text@),
{
    if status == 404 {
        Some(BackendError::NotFound(path.to_owned()))
    } else if status == 401 || status == 403 {
        Some(BackendError::PermissionDenied(returned(shown, text)))
    } else if status == 429 {
        Some(BackendError::Unavailable(concat2("Sentry API rate limited request: ", text)))
    } else if !(200 <= status && status < 300) {
        Some(BackendError::Unavailable(returned(shown, text)))
    } else {
        None
    }
}

/// The value of an answer, given how its text was parsed; see [`value_or_error`].
pub fn json_or_error(parsed: Option<Result<Json, String>>) -> (r: Result<Json, BackendError>)
    ensures
        result_view(r) == value_or_error(
            match parsed {
                None => None,
                Some(Ok(value)) => Some(Ok(value.deep_view())),
                Some(Err(message)) => Some(Err(message@)),
            },
        ),
{
    match parsed {
        None => Ok(Json::Null),
        Some(Ok(value)) => Ok(value),
        Some(Err(message)) => Err(BackendError::Other(message)),
    }
}

/// The value that an exchange over `path` brings.
pub fn json_response(path: &str, exchange: &Exchange) -> (r: Result<Json, BackendError>)
    requires
        exchange.deep_view().well_formed(),
    ensures
        result_view(r) == value_of_exchange(path@, exchange.deep_view()),
{
    match exchange {
        Exchange::Failed(reason) => Err(BackendError::Unavailable(reason.clone())),
        Exchange::Answered { status, text } => {
            let shown = show_status(*status);
            match status_fault(path, *status, shown.as_str(), text.as_str()) {
                Some(e) => Err(e),
                None => if blank(text.as_str()) {
                    json_or_error(None)
                } else {
                    json_or_error(Some(parse_json(text.as_str())))
                },
            }
        },
    }
}

}
