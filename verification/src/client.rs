//! The client: signs a call with a credential and leads it, step by step,
//! from the first event to the response body.
use crate::clock::unix_time_now;
use crate::config::Credential;
use crate::config::CredentialView;
use crate::decimal::format_u64;
use crate::decimal::parse_u64;
use crate::decimal::parsed_u64;
use crate::digest::sha1_hex_digest;
use crate::request::headers_of;
use crate::request::leading_headers;
use crate::request::signed_request_of;
use crate::request::time_url;
use crate::request::url_of;
use crate::request::Action;
use crate::request::ActionView;
use crate::request::Event;
use crate::request::EventView;
use crate::request::Header;
use crate::request::HeaderView;
use crate::request::Method;
use crate::request::RequestError;
use crate::request::RequestState;
use crate::request::SignedRequest;
use crate::digest::is_lower_hex;
use crate::signature::canonical;
use crate::signature::is_signature;
use crate::signature::signature_tag;
use crate::signature::signature_of;
use crate::signature::tag_digest;
use crate::signature::SigningInput;
use crate::utf8::string_from_utf8;
use vstd::prelude::*;
use vstd::string::StringExecFns;
use vstd::utf8::decode_utf8;
use vstd::utf8::decode_utf8_encode_utf8;
use vstd::utf8::encode_utf8;
use vstd::utf8::valid_utf8;

verus! {

/// A client of the API, with the credential that signs its calls.
#[derive(Debug, Clone)]
pub struct OVHClient {
    pub credential: Credential,
}

/// The server's time as the time endpoint's reply tells it: the number that
/// the reply spells, and 1 where it spells none.
pub open spec fn remote_time_of(reply: Seq<char>) -> u64 {
    match parsed_u64(reply) {
        Some(time) => time,
        None => 1,
    }
}

/// By how many seconds the server's clock is ahead of the local one, and 0
/// where it is not ahead.
pub open spec fn time_delta(localtime: u64, remotetime: u64) -> u64 {
    if remotetime <= localtime {
        0
    } else {
        (remotetime - localtime) as u64
    }
}

/// The timestamp that a call is signed with: the local time, moved forward
/// by the server's lead. Without a reply from the time endpoint the local
/// time stands.
pub open spec fn corrected_time(localtime: u64, reply: Option<Seq<char>>) -> u64 {
    match reply {
        Some(text) => (localtime + time_delta(localtime, remote_time_of(text))) as u64,
        None => localtime,
    }
}

/// What the response to a call comes to: its text, where the bytes are
/// UTF-8.
pub open spec fn decoded_response(bytes: Seq<u8>) -> Result<Seq<char>, RequestError> {
    if valid_utf8(bytes) {
        Ok(decode_utf8(bytes))
    } else {
        Err(RequestError::DecodeError)
    }
}

/// One step of a call: the state after `event` and what is to be done next,
/// where the local clock reads `now` seconds.
///
/// A verb that the API does not take ends the call at once, whatever the
/// state and the event. Otherwise the call asks for the server's time, then
/// sends the signed request, then returns the response body; an event that
/// the state does not wait for ends it.
pub open spec fn next_step(
    credential: CredentialView,
    method: Seq<char>,
    query: Seq<char>,
    body: Seq<char>,
    state: RequestState,
    event: EventView,
    now: u64,
) -> (RequestState, ActionView) {
    match Method::named(method) {
        None => (RequestState::Finished, ActionView::Fail(RequestError::UnsupportedMethod)),
        Some(verb) => match (state, event) {
            (RequestState::Start, EventView::Begin) => (
                RequestState::AwaitingTime { localtime: now },
                ActionView::FetchTime { url: time_url() },
            ),
            (RequestState::AwaitingTime { localtime }, EventView::TimeReply(reply)) => (
                RequestState::AwaitingResponse,
                ActionView::Send(
                    signed_request_of(
                        credential,
                        verb,
                        method,
                        query,
                        body,
                        corrected_time(localtime, reply),
                    ),
                ),
            ),
            (RequestState::AwaitingResponse, EventView::Response(Some(bytes))) => (
                RequestState::Finished,
                match decoded_response(bytes) {
                    Ok(text) => ActionView::Return(text),
                    Err(error) => ActionView::Fail(error),
                },
            ),
            (RequestState::AwaitingResponse, EventView::Response(None)) => (
                RequestState::Finished,
                ActionView::Fail(RequestError::TransportError),
            ),
            _ => (RequestState::Finished, ActionView::Fail(RequestError::OutOfOrder)),
        },
    }
}

/// Whether `action` asks the caller to use the network.
pub open spec fn uses_network(action: ActionView) -> bool {
    action is FetchTime || action is Send
}

/// A verb that the API does not take ends the call in every state and on
/// every event, with `UnsupportedMethod` and without a step on the network.
pub proof fn lemma_unsupported_method_uses_no_network(
    credential: CredentialView,
    method: Seq<char>,
    query: Seq<char>,
    body: Seq<char>,
    state: RequestState,
    event: EventView,
    now: u64,
)
    requires
        Method::named(method) is None,
    ensures
        next_step(credential, method, query, body, state, event, now) == (
            RequestState::Finished,
            ActionView::Fail(RequestError::UnsupportedMethod),
        ),
        !uses_network(next_step(credential, method, query, body, state, event, now).1),
{
}

/// A call is over exactly when its step returns the response or fails: as
/// long as the state is not `Finished`, the action is one for the network.
pub proof fn lemma_finished_iff_no_network(
    credential: CredentialView,
    method: Seq<char>,
    query: Seq<char>,
    body: Seq<char>,
    state: RequestState,
    event: EventView,
    now: u64,
)
    ensures
        next_step(credential, method, query, body, state, event, now).0 == RequestState::Finished
            <==> !uses_network(next_step(credential, method, query, body, state, event, now).1),
{
}

/// A response of well-formed UTF-8 is returned unmodified: the text that the
/// call ends with encodes to the very bytes that came in.
pub proof fn lemma_response_is_returned_unmodified(
    credential: CredentialView,
    method: Seq<char>,
    query: Seq<char>,
    body: Seq<char>,
    bytes: Seq<u8>,
    now: u64,
)
    requires
        Method::named(method) is Some,
        valid_utf8(bytes),
    ensures
        next_step(
            credential,
            method,
            query,
            body,
            RequestState::AwaitingResponse,
            EventView::Response(Some(bytes)),
            now,
        ) == (RequestState::Finished, ActionView::Return(decode_utf8(bytes))),
        encode_utf8(decode_utf8(bytes)) == bytes,
{
    decode_utf8_encode_utf8(bytes);
}

/// The timestamp that a call is signed with is the later of the local time
/// and the server's time.
pub proof fn lemma_corrected_time_is_later_time(localtime: u64, reply: Seq<char>)
    ensures
        corrected_time(localtime, Some(reply)) == (if remote_time_of(reply) <= localtime {
            localtime
        } else {
            remote_time_of(reply)
        }),
{
}

fn header(name: &str, value: &str) -> (r: Header)
    ensures
        r@ == (HeaderView { name: name@, value: value@ }),
{
    Header { name: name.to_owned(), value: value.to_owned() }
}

impl OVHClient {
    /// A client that signs with `credential`.
    pub fn new(credential: Credential) -> (r: OVHClient)
        ensures
            r.credential == credential,
    {
        OVHClient { credential }
    }

    /// Computes the signature of a call: `$1$`, then the SHA-1 digest of
    /// secret, consumer key, verb, URL, body and timestamp, joined by `+`.
    pub fn build_sig(
        method: &str,
        query: &str,
        body: &str,
        timestamp: &str,
        aas: &str,
        ck: &str,
    ) -> (r: String)
        ensures
            r@ == signature_of(
                SigningInput {
                    method: method@,
                    url: query@,
                    body: body@,
                    timestamp: timestamp@,
                    secret: aas@,
                    consumer_key: ck@,
                },
            ),
            is_signature(r@),
    {
        let text: String = canonical(method, query, body, timestamp, aas, ck);
        let hex: String = sha1_hex_digest(text.as_str());
        let sign: String = tag_digest(hex.as_str());
        proof {
            assert(sign@.subrange(0, 3) =~= signature_tag());
            assert forall|i: int| 3 <= i < 43 implies is_lower_hex(#[trigger] sign@[i]) by {
                assert(sign@[i] == hex@[i - 3]);
            }
        }
        sign
    }

    /// Reads the server's time from the reply of the time endpoint. A reply
    /// that spells no number counts as the time 1, which lies behind every
    /// local clock.
    pub fn remote_time(reply: &str) -> (r: u64)
        ensures
            r == remote_time_of(reply@),
    {
        match parse_u64(reply) {
            Some(time) => time,
            None => 1,
        }
    }

    /// The lead of the server's clock over the local one, in seconds; 0 where
    /// the server's time is not ahead.
    pub fn compute_time_delta(localtime: u64, remotetime: u64) -> (r: u64)
        ensures
            r == time_delta(localtime, remotetime),
            localtime + r <= u64::MAX,
            localtime + r == (if remotetime <= localtime { localtime } else { remotetime }),
    {
        if remotetime <= localtime {
            0
        } else {
            remotetime - localtime
        }
    }

    /// The URL of the call to `query` on `host`.
    pub fn build_url(host: &str, query: &str) -> (r: String)
        ensures
            r@ == url_of(host@, query@),
    {
        let mut url: String = "https://".to_owned();
        url.append(host);
        url.append("/1.0");
        url.append(query);
        url
    }

    /// Signs a call at the time `timestamp` and lays out the request.
    pub fn sign_request(
        credential: &Credential,
        verb: Method,
        method: &str,
        query: &str,
        body: &str,
        timestamp: u64,
    ) -> (r: SignedRequest)
        ensures
            r@ == signed_request_of(credential@, verb, method@, query@, body@, timestamp),
    {
        let url: String = OVHClient::build_url(credential.host.as_str(), query);
        let stamp: String = format_u64(timestamp);
        let sign: String = OVHClient::build_sig(
            method,
            url.as_str(),
            body,
            stamp.as_str(),
            credential.application_secret.as_str(),
            credential.consumer_key.as_str(),
        );
        let mut headers: Vec<Header> = Vec::new();
        headers.push(header("X-Ovh-Application", credential.application_key.as_str()));
        headers.push(header("X-Ovh-Timestamp", stamp.as_str()));
        headers.push(header("X-Ovh-Signature", sign.as_str()));
        headers.push(header("X-Ovh-Consumer", credential.consumer_key.as_str()));
        headers.push(header("Accept", "application/json; charset=utf-8"));
        assert(headers@.map_values(|h: Header| h@) =~= leading_headers(
            credential@,
            stamp@,
            sign@,
        ));
        let attached: Option<String> = if verb.has_body() {
            headers.push(header("Content-Type", "application/json; charset=utf-8"));
            Some(body.to_owned())
        } else {
            None
        };
        headers.push(header("User-Agent", "OVH-rs/hyper/0.10"));
        assert(headers@.map_values(|h: Header| h@) =~= headers_of(
            credential@,
            verb,
            stamp@,
            sign@,
        ));
        SignedRequest { method: verb, url, headers, body: attached }
    }

    /// Turns the bytes of a response into the text that is returned.
    pub fn decode_response(bytes: Vec<u8>) -> (r: Result<String, RequestError>)
        ensures
            r is Ok <==> decoded_response(bytes@) is Ok,
            r is Ok ==> r.unwrap()@ == decoded_response(bytes@).unwrap(),
            r is Err ==> r == Err::<String, RequestError>(RequestError::DecodeError),
    {
        match string_from_utf8(bytes) {
            Some(text) => Ok(text),
            None => Err(RequestError::DecodeError),
        }
    }

    /// One step of a call with the local clock at `now`: see `next_step`.
    pub fn request_at(
        credential: &Credential,
        method: &str,
        query: &str,
        body: &str,
        state: RequestState,
        event: Event,
        now: u64,
    ) -> (r: (RequestState, Action))
        ensures
            (r.0, r.1@) == next_step(credential@, method@, query@, body@, state, event@, now),
    {
        let verb: Method = match Method::from_name(method) {
            Some(verb) => verb,
            None => {
                return (RequestState::Finished, Action::Fail(RequestError::UnsupportedMethod));
            },
        };
        match (state, event) {
            (RequestState::Start, Event::Begin) => (
                RequestState::AwaitingTime { localtime: now },
                Action::FetchTime { url: "https://eu.api.ovh.com/1.0/auth/time".to_owned() },
            ),
            (RequestState::AwaitingTime { localtime }, Event::TimeReply(reply)) => {
                let timestamp: u64 = match reply {
                    Some(text) => {
                        let remotetime: u64 = OVHClient::remote_time(text.as_str());
                        localtime + OVHClient::compute_time_delta(localtime, remotetime)
                    },
                    None => localtime,
                };
                let request: SignedRequest = OVHClient::sign_request(
                    credential,
                    verb,
                    method,
                    query,
                    body,
                    timestamp,
                );
                (RequestState::AwaitingResponse, Action::Send(request))
            },
            (RequestState::AwaitingResponse, Event::Response(Some(bytes))) => {
                match OVHClient::decode_response(bytes) {
                    Ok(text) => (RequestState::Finished, Action::Return(text)),
                    Err(error) => (RequestState::Finished, Action::Fail(error)),
                }
            },
            (RequestState::AwaitingResponse, Event::Response(None)) => (
                RequestState::Finished,
                Action::Fail(RequestError::TransportError),
            ),
            _ => (RequestState::Finished, Action::Fail(RequestError::OutOfOrder)),
        }
    }

    /// One step of a call. The caller starts with `RequestState::Start` and
    /// `Event::Begin`, does what the action says, and comes back with the
    /// new state and the event that tells the outcome, until the action is
    /// `Return` or `Fail`.
    ///
    /// The first step reads the local clock; the step is the one that
    /// `next_step` gives for that reading. With a verb that the API does not
    /// take, the step fails with `UnsupportedMethod` and asks nothing of the
    /// network.
    pub fn request(
        credential: &Credential,
        method: &str,
        query: &str,
        body: &str,
        state: RequestState,
        event: Event,
    ) -> (r: (RequestState, Action))
        ensures
            exists|now: u64|
                (r.0, r.1@) == #[trigger] next_step(
                    credential@,
                    method@,
                    query@,
                    body@,
                    state,
                    event@,
                    now,
                ),
            Method::named(method@) is None ==> r.0 == RequestState::Finished && r.1@
                == ActionView::Fail(RequestError::UnsupportedMethod),
    {
        let now: u64 = match state {
            RequestState::Start => {
                let seconds: i64 = unix_time_now();
                seconds as u64
            },
            _ => 0,
        };
        OVHClient::request_at(credential, method, query, body, state, event, now)
    }
}

} // verus!
