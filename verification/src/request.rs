//! What a signed call looks like on the wire, and the steps that lead to it.
use crate::config::CredentialView;
use crate::decimal::decimal_digits;
use crate::signature::signature_of;
use crate::signature::SigningInput;
use vstd::prelude::*;

verus! {

/// The verbs that the API takes.
#[derive(Debug, Clone, Copy, PartialEq, Eq, Structural)]
pub enum Method {
    Get,
    Post,
    Put,
    Patch,
    Delete,
    Head,
}

impl Method {
    /// The verb that `name` spells, if it spells one: the names are in upper
    /// case.
    pub open spec fn named(name: Seq<char>) -> Option<Method> {
        if name == "GET"@ {
            Some(Method::Get)
        } else if name == "POST"@ {
            Some(Method::Post)
        } else if name == "PUT"@ {
            Some(Method::Put)
        } else if name == "PATCH"@ {
            Some(Method::Patch)
        } else if name == "DELETE"@ {
            Some(Method::Delete)
        } else if name == "HEAD"@ {
            Some(Method::Head)
        } else {
            None
        }
    }

    /// Whether a call with this verb carries the caller's body.
    pub open spec fn carries_body(self) -> bool {
        self == Method::Post || self == Method::Put || self == Method::Patch || self
            == Method::Delete
    }

    /// Reads a verb from its name.
    pub fn from_name(name: &str) -> (r: Option<Method>)
        ensures
            r == Method::named(name@),
    {
        let name: String = name.to_owned();
        if name == "GET".to_owned() {
            Some(Method::Get)
        } else if name == "POST".to_owned() {
            Some(Method::Post)
        } else if name == "PUT".to_owned() {
            Some(Method::Put)
        } else if name == "PATCH".to_owned() {
            Some(Method::Patch)
        } else if name == "DELETE".to_owned() {
            Some(Method::Delete)
        } else if name == "HEAD".to_owned() {
            Some(Method::Head)
        } else {
            None
        }
    }

    /// Whether a call with this verb carries the caller's body.
    pub fn has_body(&self) -> (r: bool)
        ensures
            r == self.carries_body(),
    {
        match self {
            Method::Post | Method::Put | Method::Patch | Method::Delete => true,
            Method::Get | Method::Head => false,
        }
    }
}

/// One header of a request.
#[derive(Debug, Clone, PartialEq, Eq)]
pub struct Header {
    pub name: String,
    pub value: String,
}

/// A header as two sequences of characters.
pub struct HeaderView {
    pub name: Seq<char>,
    pub value: Seq<char>,
}

impl View for Header {
    type V = HeaderView;

    open spec fn view(&self) -> HeaderView {
        HeaderView { name: self.name@, value: self.value@ }
    }
}

/// A call that is ready to be sent: verb, URL, headers in the order in which
/// they are to be set, and the body where the verb carries one.
#[derive(Debug, Clone, PartialEq, Eq)]
pub struct SignedRequest {
    pub method: Method,
    pub url: String,
    pub headers: Vec<Header>,
    pub body: Option<String>,
}

/// A signed request as plain mathematical values.
pub struct SignedRequestView {
    pub method: Method,
    pub url: Seq<char>,
    pub headers: Seq<HeaderView>,
    pub body: Option<Seq<char>>,
}

impl View for SignedRequest {
    type V = SignedRequestView;

    open spec fn view(&self) -> SignedRequestView {
        SignedRequestView {
            method: self.method,
            url: self.url@,
            headers: self.headers@.map_values(|h: Header| h@),
            body: match self.body {
                Some(text) => Some(text@),
                None => None,
            },
        }
    }
}

/// Why a call came to nothing.
#[derive(Debug, Clone, Copy, PartialEq, Eq, Structural)]
pub enum RequestError {
    /// The verb is none of those that the API takes.
    UnsupportedMethod,
    /// The request could not be sent, or no response came back.
    TransportError,
    /// The response is not UTF-8.
    DecodeError,
    /// An event was handed in that the state of the call does not wait for.
    OutOfOrder,
}

/// How far a call has come.
#[derive(Debug, Clone, Copy, PartialEq, Eq, Structural)]
pub enum RequestState {
    /// Nothing has happened yet.
    Start,
    /// The server's time was asked for when the local clock read `localtime`.
    AwaitingTime { localtime: u64 },
    /// The signed request is under way.
    AwaitingResponse,
    /// The call is over.
    Finished,
}

/// What has happened since the last step.
#[derive(Debug, Clone, PartialEq, Eq)]
pub enum Event {
    /// The caller starts the call.
    Begin,
    /// The time endpoint has answered with this text, or could not be
    /// reached.
    TimeReply(Option<String>),
    /// The API has answered with these bytes, or the transport has failed.
    Response(Option<Vec<u8>>),
}

/// An event as plain mathematical values.
pub enum EventView {
    Begin,
    TimeReply(Option<Seq<char>>),
    Response(Option<Seq<u8>>),
}

impl View for Event {
    type V = EventView;

    open spec fn view(&self) -> EventView {
        match *self {
            Event::Begin => EventView::Begin,
            Event::TimeReply(Some(text)) => EventView::TimeReply(Some(text@)),
            Event::TimeReply(None) => EventView::TimeReply(None),
            Event::Response(Some(bytes)) => EventView::Response(Some(bytes@)),
            Event::Response(None) => EventView::Response(None),
        }
    }
}

/// What the caller is to do next.
#[derive(Debug, Clone, PartialEq, Eq)]
pub enum Action {
    /// Get this URL, unsigned, and hand in the reply as `Event::TimeReply`.
    FetchTime { url: String },
    /// Send this request and hand in the response as `Event::Response`.
    Send(SignedRequest),
    /// The call has succeeded with this response body.
    Return(String),
    /// The call has failed.
    Fail(RequestError),
}

/// An action as plain mathematical values.
pub enum ActionView {
    FetchTime { url: Seq<char> },
    Send(SignedRequestView),
    Return(Seq<char>),
    Fail(RequestError),
}

impl View for Action {
    type V = ActionView;

    open spec fn view(&self) -> ActionView {
        match *self {
            Action::FetchTime { url } => ActionView::FetchTime { url: url@ },
            Action::Send(request) => ActionView::Send(request@),
            Action::Return(text) => ActionView::Return(text@),
            Action::Fail(error) => ActionView::Fail(error),
        }
    }
}

/// The URL of a call: scheme, the credential's host, the API's version and
/// the caller's path.
pub open spec fn url_of(host: Seq<char>, query: Seq<char>) -> Seq<char> {
    "https://"@ + host + "/1.0"@ + query
}

/// The URL that tells the server's time.
pub open spec fn time_url() -> Seq<char> {
    "https://eu.api.ovh.com/1.0/auth/time"@
}

/// The media type that is asked for and sent.
pub open spec fn json_utf8() -> Seq<char> {
    "application/json; charset=utf-8"@
}

/// The headers that every call carries in front of its content type.
pub open spec fn leading_headers(
    credential: CredentialView,
    timestamp: Seq<char>,
    signature: Seq<char>,
) -> Seq<HeaderView> {
    seq![
        HeaderView { name: "X-Ovh-Application"@, value: credential.application_key },
        HeaderView { name: "X-Ovh-Timestamp"@, value: timestamp },
        HeaderView { name: "X-Ovh-Signature"@, value: signature },
        HeaderView { name: "X-Ovh-Consumer"@, value: credential.consumer_key },
        HeaderView { name: "Accept"@, value: json_utf8() },
    ]
}

/// The header that names the client.
pub open spec fn user_agent() -> HeaderView {
    HeaderView { name: "User-Agent"@, value: "OVH-rs/hyper/0.10"@ }
}

/// The headers of a call, in order: the four that authenticate it, `Accept`,
/// `Content-Type` where a body is sent, and `User-Agent`.
pub open spec fn headers_of(
    credential: CredentialView,
    method: Method,
    timestamp: Seq<char>,
    signature: Seq<char>,
) -> Seq<HeaderView> {
    let leading = leading_headers(credential, timestamp, signature);
    if method.carries_body() {
        leading.push(HeaderView { name: "Content-Type"@, value: json_utf8() }).push(user_agent())
    } else {
        leading.push(user_agent())
    }
}

/// The signed request for a call at the time `timestamp`: the signature binds
/// the verb as the caller spelt it, the full URL, the body and the timestamp
/// in decimal notation.
pub open spec fn signed_request_of(
    credential: CredentialView,
    method: Method,
    method_name: Seq<char>,
    query: Seq<char>,
    body: Seq<char>,
    timestamp: u64,
) -> SignedRequestView {
    let url = url_of(credential.host, query);
    let stamp = decimal_digits(timestamp as nat);
    let signature = signature_of(
        SigningInput {
            method: method_name,
            url: url,
            body: body,
            timestamp: stamp,
            secret: credential.application_secret,
            consumer_key: credential.consumer_key,
        },
    );
    SignedRequestView {
        method: method,
        url: url,
        headers: headers_of(credential, method, stamp, signature),
        body: if method.carries_body() {
            Some(body)
        } else {
            None
        },
    }
}

} // verus!
