//! The uniform request pipeline: base address, request assembly, connectivity
//! probe with bounded retries, authorization, and classification of what came
//! back. The pipeline is a state machine: the caller performs the I/O that a
//! [`Step`] asks for and reports the outcome as the next [`Event`].
use vstd::prelude::*;
use vstd::string::*;
use crate::error::{AppError, AppResult, ErrorKind, TransportFailure};
use crate::models::{text_of, ErrorNotification, ErrorNotificationView};
use crate::text::{decimal_text, int_to_string};

verus! {

/// Port of the backend on every host.
pub const DEFAULT_PORT: &'static str = "8000";

/// The well-known address that the connectivity probe asks.
pub const PROBE_URL: &'static str = "https://8.8.8.8";

/// Number of probes after which a request gives up.
pub const MAX_PROBES: u32 = 30;

/// Seconds to wait between two probes.
pub const PROBE_BACKOFF_SECONDS: u64 = 2;

/// Seconds after which a dispatched request times out.
pub const REQUEST_TIMEOUT_SECONDS: u64 = 10;

/// The host platform the application was built for.
#[derive(Clone, Copy, Debug, PartialEq, Eq, Structural)]
pub enum Platform {
    Ios,
    Android,
    Other,
}

#[derive(Clone, Copy, Debug, PartialEq, Eq, Structural)]
pub enum Method {
    Get,
    Post,
    Delete,
}

/// What the caller of a request wants from a successful response.
#[derive(Clone, Copy, Debug, PartialEq, Eq, Structural)]
pub enum Expect {
    /// Only the status code.
    Status,
    /// The body, decoded from JSON.
    Json,
}

/// A request ready for the pipeline.
#[derive(Clone, Debug, PartialEq, Eq)]
pub struct RequestSpec {
    pub method: Method,
    /// Absolute address: base address, `/`, endpoint.
    pub url: String,
    /// The serialized body; with it goes `Content-Type: application/json`.
    pub body: Option<String>,
    pub expect: Expect,
}

/// The mathematical value of a [`RequestSpec`].
pub struct RequestSpecView {
    pub method: Method,
    pub url: Seq<char>,
    pub body: Option<Seq<char>>,
    pub expect: Expect,
}

impl View for RequestSpec {
    type V = RequestSpecView;

    open spec fn view(&self) -> RequestSpecView {
        RequestSpecView {
            method: self.method,
            url: self.url@,
            body: text_of(self.body),
            expect: self.expect,
        }
    }
}

impl RequestSpec {
    /// Whether the request carries `Content-Type: application/json`.
    pub fn has_json_content_type(&self) -> (b: bool)
        ensures
            b == self@.body is Some,
    {
        self.body.is_some()
    }
}

/// The development host of a platform: a fixed LAN address on iOS, the host
/// of the configured development address on Android, the local host otherwise.
pub open spec fn dev_host_spec(platform: Platform, dev_host: Option<Seq<char>>) -> Seq<char> {
    match platform {
        Platform::Ios => "192.168.50.54"@,
        Platform::Android => match dev_host {
            Some(h) => h,
            None => "localhost"@,
        },
        Platform::Other => "localhost"@,
    }
}

/// The base address of the backend.
pub open spec fn base_url_spec(platform: Platform, debug: bool, dev_host: Option<Seq<char>>) -> Seq<
    char,
> {
    let host = if debug {
        dev_host_spec(platform, dev_host)
    } else {
        "localhost"@
    };
    "http://"@ + host + ":"@ + "8000"@ + "/api"@
}

/// The address of an endpoint below a base address.
pub open spec fn endpoint_url(base: Seq<char>, endpoint: Seq<char>) -> Seq<char> {
    base + "/"@ + endpoint
}

/// The value of the `Authorization` header for a token.
pub open spec fn bearer(token: Seq<char>) -> Seq<char> {
    "Bearer "@ + token
}

/// The token a request authenticates with: the armed one-shot token if there
/// is one, else the session token.
pub open spec fn chosen_token(pending: Option<Seq<char>>, session: Option<Seq<char>>) -> Option<
    Seq<char>,
> {
    match pending {
        Some(t) => Some(t),
        None => session,
    }
}

/// The `Authorization` header of a request, if it gets one.
pub open spec fn authorization_spec(pending: Option<Seq<char>>, session: Option<Seq<char>>)
    -> Option<Seq<char>> {
    match chosen_token(pending, session) {
        Some(t) => Some(bearer(t)),
        None => None,
    }
}

/// Where a request stands in the pipeline.
#[derive(Clone, Copy, Debug, PartialEq, Eq, Structural)]
pub enum PipelineState {
    /// Waiting for the outcome of a probe, after `failures` failed ones.
    Probing { failures: u32 },
    /// The request was sent; waiting for the response.
    Dispatched,
    /// The result was handed out.
    Finished,
}

/// What the caller observed.
#[derive(Clone, Debug, PartialEq, Eq)]
pub enum Event {
    /// The probe succeeded; `session` is the session token read from the
    /// store at this moment.
    ProbeOk { session: Option<String> },
    ProbeFailed,
    /// The backend answered.
    Response { status: u16, body: String },
    /// The request failed in transport.
    Failed(TransportFailure),
}

/// A successful response.
#[derive(Clone, Debug, PartialEq, Eq)]
pub struct Reply {
    pub status: u16,
    pub body: String,
}

/// What the caller has to do next.
#[derive(Debug, PartialEq, Eq)]
pub enum Next {
    /// The event did not fit the state: nothing to do.
    Idle,
    /// Wait `wait_seconds`, then probe connectivity.
    Probe { wait_seconds: u64 },
    /// Send the request, with this `Authorization` header if any, and give
    /// up after `timeout_seconds`.
    Send { authorization: Option<String>, timeout_seconds: u64 },
    /// Hand the result to the caller of the request.
    Finish(AppResult<Reply>),
}

/// One move of the pipeline: an optional error notification to emit first,
/// then the next thing to do.
#[derive(Debug, PartialEq, Eq)]
pub struct Step {
    pub notice: Option<ErrorNotification>,
    pub next: Next,
}

pub enum NextView {
    Idle,
    Probe { wait_seconds: u64 },
    Send { authorization: Option<Seq<char>>, timeout_seconds: u64 },
    Finish(Result<(u16, Seq<char>), (ErrorKind, Seq<char>)>),
}

pub struct StepView {
    pub notice: Option<ErrorNotificationView>,
    pub next: NextView,
}

impl View for Next {
    type V = NextView;

    open spec fn view(&self) -> NextView {
        match self {
            Next::Idle => NextView::Idle,
            Next::Probe { wait_seconds } => NextView::Probe { wait_seconds: *wait_seconds },
            Next::Send { authorization, timeout_seconds } => NextView::Send {
                authorization: text_of(*authorization),
                timeout_seconds: *timeout_seconds,
            },
            Next::Finish(Ok(reply)) => NextView::Finish(Ok((reply.status, reply.body@))),
            Next::Finish(Err(e)) => NextView::Finish(Err(e@)),
        }
    }
}

impl View for Step {
    type V = StepView;

    open spec fn view(&self) -> StepView {
        StepView {
            notice: match self.notice {
                Some(n) => Some(n@),
                None => None,
            },
            next: self.next@,
        }
    }
}

/// The message of a failed response: its body, or a text made from the status
/// code when the body is empty.
pub open spec fn failure_message(status: u16, body: Seq<char>) -> Seq<char> {
    if body.len() == 0 {
        "Server error: "@ + decimal_text(status as int)
    } else {
        body
    }
}

pub open spec fn is_success(status: u16) -> bool {
    200 <= status < 300
}

pub open spec fn is_client_error(status: u16) -> bool {
    400 <= status < 500
}

/// How a response is classified: success passes through; a client error
/// becomes a backend failure and every other status an internal one, each
/// with one server-error notification.
pub open spec fn classify_response_spec(status: u16, body: Seq<char>) -> StepView {
    if is_success(status) {
        StepView { notice: None, next: NextView::Finish(Ok((status, body))) }
    } else {
        StepView {
            notice: Some(ErrorNotificationView::ServerError { message: "Server error"@ }),
            next: NextView::Finish(
                Err(
                    (
                        if is_client_error(status) {
                            ErrorKind::Backend
                        } else {
                            ErrorKind::Internal
                        },
                        failure_message(status, body),
                    ),
                ),
            ),
        }
    }
}

/// How a transport failure of the dispatched request is classified.
pub open spec fn classify_failure_spec(f: TransportFailure) -> StepView {
    StepView {
        notice: None,
        next: NextView::Finish(
            Err(
                (
                    ErrorKind::Network,
                    match f {
                        TransportFailure::Timeout => "Request timeout"@,
                        TransportFailure::Connect => "Connection refused"@,
                        TransportFailure::Other(text) => text@,
                    },
                ),
            ),
        ),
    }
}

/// The move after a failed probe, `failures` probes having failed before it.
pub open spec fn probe_failed_spec(failures: u32) -> (PipelineState, StepView) {
    let notice = if failures == 0 {
        Some(ErrorNotificationView::NetworkError { message: "No internet connection"@ })
    } else {
        None
    };
    if failures + 1 >= MAX_PROBES {
        (
            PipelineState::Finished,
            StepView {
                notice,
                next: NextView::Finish(
                    Err((ErrorKind::Network, "No internet connection after maximum retries"@)),
                ),
            },
        )
    } else {
        (
            PipelineState::Probing { failures: (failures + 1) as u32 },
            StepView { notice, next: NextView::Probe { wait_seconds: PROBE_BACKOFF_SECONDS } },
        )
    }
}

/// The state of a client together with one request in flight.
pub struct Machine {
    pub state: PipelineState,
    /// The armed one-shot token.
    pub pending: Option<Seq<char>>,
}

/// The pipeline's transition: the machine after an event.
pub open spec fn next_machine(m: Machine, event: Event) -> Machine {
    match (m.state, event) {
        (PipelineState::Probing { failures }, Event::ProbeFailed) => Machine {
            state: probe_failed_spec(failures).0,
            pending: m.pending,
        },
        (PipelineState::Probing { .. }, Event::ProbeOk { .. }) => Machine {
            state: PipelineState::Dispatched,
            pending: None,
        },
        (PipelineState::Dispatched, Event::Response { .. }) => Machine {
            state: PipelineState::Finished,
            pending: m.pending,
        },
        (PipelineState::Dispatched, Event::Failed(_)) => Machine {
            state: PipelineState::Finished,
            pending: m.pending,
        },
        _ => m,
    }
}

/// The pipeline's transition: the move that an event causes.
pub open spec fn next_step(m: Machine, event: Event) -> StepView {
    match (m.state, event) {
        (PipelineState::Probing { failures }, Event::ProbeFailed) => probe_failed_spec(failures).1,
        (PipelineState::Probing { .. }, Event::ProbeOk { session }) => StepView {
            notice: None,
            next: NextView::Send {
                authorization: authorization_spec(m.pending, text_of(session)),
                timeout_seconds: REQUEST_TIMEOUT_SECONDS,
            },
        },
        (PipelineState::Dispatched, Event::Response { status, body }) => classify_response_spec(
            status,
            body@,
        ),
        (PipelineState::Dispatched, Event::Failed(f)) => classify_failure_spec(f),
        _ => StepView { notice: None, next: NextView::Idle },
    }
}

/// The first move of every request: probe at once.
pub open spec fn first_step() -> StepView {
    StepView { notice: None, next: NextView::Probe { wait_seconds: 0 } }
}

/// The client shared by all services: the base address and the one-shot
/// token slot.
#[derive(Debug)]
pub struct BackendClient {
    base_url: String,
    next_request_token: Option<String>,
}

impl BackendClient {
    /// The base address.
    pub closed spec fn base(&self) -> Seq<char> {
        self.base_url@
    }

    /// The armed one-shot token.
    pub closed spec fn pending(&self) -> Option<Seq<char>> {
        text_of(self.next_request_token)
    }

    /// The machine made of this client and a request in state `state`.
    pub open spec fn machine(&self, state: PipelineState) -> Machine {
        Machine { state, pending: self.pending() }
    }

    /// A client for the given platform and build profile; `dev_host` is the
    /// host of the configured development address, if any. No token is armed.
    pub fn new(platform: Platform, debug: bool, dev_host: Option<String>) -> (c: BackendClient)
        ensures
            c.base() == base_url_spec(platform, debug, text_of(dev_host)),
            c.pending() is None,
    {
        BackendClient {
            base_url: Self::determine_base_url(platform, debug, dev_host),
            next_request_token: None,
        }
    }

    pub fn determine_base_url(platform: Platform, debug: bool, dev_host: Option<String>) -> (r:
        String)
        ensures
            r@ == base_url_spec(platform, debug, text_of(dev_host)),
    {
        let host = if debug {
            Self::get_dev_host(platform, dev_host)
        } else {
            String::from_str("localhost")
        };
        let mut url = String::from_str("http://");
        url.append(host.as_str());
        url.append(":");
        url.append(DEFAULT_PORT);
        url.append("/api");
        url
    }

    pub fn get_dev_host(platform: Platform, dev_host: Option<String>) -> (r: String)
        ensures
            r@ == dev_host_spec(platform, text_of(dev_host)),
    {
        match platform {
            Platform::Ios => String::from_str("192.168.50.54"),
            Platform::Android => match dev_host {
                Some(h) => h,
                None => String::from_str("localhost"),
            },
            Platform::Other => String::from_str("localhost"),
        }
    }

    pub fn base_url(&self) -> (r: &str)
        ensures
            r@ == self.base(),
    {
        self.base_url.as_str()
    }

    /// Whether a one-shot token is armed.
    pub fn has_temporary_token(&self) -> (b: bool)
        ensures
            b == self.pending() is Some,
    {
        self.next_request_token.is_some()
    }

    fn url_of(&self, endpoint: &str) -> (r: String)
        ensures
            r@ == endpoint_url(self.base(), endpoint@),
    {
        let mut url = self.base_url.clone();
        url.append("/");
        url.append(endpoint);
        url
    }

    /// A GET whose response is decoded.
    pub fn get(&self, endpoint: &str) -> (r: RequestSpec)
        ensures
            r@ == (RequestSpecView {
                method: Method::Get,
                url: endpoint_url(self.base(), endpoint@),
                body: None,
                expect: Expect::Json,
            }),
    {
        RequestSpec { method: Method::Get, url: self.url_of(endpoint), body: None, expect: Expect::Json }
    }

    /// A POST that reports the status code.
    pub fn post(&self, endpoint: &str, body: String) -> (r: RequestSpec)
        ensures
            r@ == (RequestSpecView {
                method: Method::Post,
                url: endpoint_url(self.base(), endpoint@),
                body: Some(body@),
                expect: Expect::Status,
            }),
    {
        self.post_internal(endpoint, body, Expect::Status)
    }

    /// A POST whose response is decoded.
    pub fn post_with_return(&self, endpoint: &str, body: String) -> (r: RequestSpec)
        ensures
            r@ == (RequestSpecView {
                method: Method::Post,
                url: endpoint_url(self.base(), endpoint@),
                body: Some(body@),
                expect: Expect::Json,
            }),
    {
        self.post_internal(endpoint, body, Expect::Json)
    }

    fn post_internal(&self, endpoint: &str, body: String, expect: Expect) -> (r: RequestSpec)
        ensures
            r@ == (RequestSpecView {
                method: Method::Post,
                url: endpoint_url(self.base(), endpoint@),
                body: Some(body@),
                expect,
            }),
    {
        RequestSpec { method: Method::Post, url: self.url_of(endpoint), body: Some(body), expect }
    }

    /// A GET that carries a body and whose response is decoded.
    pub fn get_with_body(&self, endpoint: &str, body: String) -> (r: RequestSpec)
        ensures
            r@ == (RequestSpecView {
                method: Method::Get,
                url: endpoint_url(self.base(), endpoint@),
                body: Some(body@),
                expect: Expect::Json,
            }),
    {
        RequestSpec {
            method: Method::Get,
            url: self.url_of(endpoint),
            body: Some(body),
            expect: Expect::Json,
        }
    }

    /// A DELETE that reports the status code.
    pub fn delete(&self, endpoint: &str) -> (r: RequestSpec)
        ensures
            r@ == (RequestSpecView {
                method: Method::Delete,
                url: endpoint_url(self.base(), endpoint@),
                body: None,
                expect: Expect::Status,
            }),
    {
        RequestSpec {
            method: Method::Delete,
            url: self.url_of(endpoint),
            body: None,
            expect: Expect::Status,
        }
    }

    /// Arms a token for the next request; an armed one is replaced.
    pub fn set_temporary_token(&mut self, token: String)
        ensures
            final(self).pending() == Some(token@),
            final(self).base() == old(self).base(),
    {
        self.next_request_token = Some(token);
    }

    /// Chooses the `Authorization` header of the request about to be sent and
    /// consumes the armed token.
    pub fn add_authorization_header(&mut self, session: Option<String>) -> (r: Option<String>)
        ensures
            text_of(r) == authorization_spec(old(self).pending(), text_of(session)),
            final(self).pending() is None,
            final(self).base() == old(self).base(),
    {
        let chosen = match self.next_request_token.take() {
            Some(token) => Some(token),
            None => session,
        };
        match chosen {
            Some(token) => Some(String::from_str("Bearer ").concat(token.as_str())),
            None => None,
        }
    }

    /// The pipeline of a new request: the state to start from and the first move.
    pub fn begin() -> (r: (PipelineState, Step))
        ensures
            r.0 == (PipelineState::Probing { failures: 0 }),
            r.1@ == first_step(),
    {
        (
            PipelineState::Probing { failures: 0 },
            Step { notice: None, next: Next::Probe { wait_seconds: 0 } },
        )
    }

    /// The probe phase: what follows a failed probe.
    pub fn check_connectivity(failures: u32) -> (r: (PipelineState, Step))
        ensures
            r.0 == probe_failed_spec(failures).0,
            r.1@ == probe_failed_spec(failures).1,
    {
        let notice = if failures == 0 {
            Some(ErrorNotification::network_error("No internet connection"))
        } else {
            None
        };
        if failures >= MAX_PROBES - 1 {
            let e = AppError::Network(
                String::from_str("No internet connection after maximum retries"),
            );
            (PipelineState::Finished, Step { notice, next: Next::Finish(Err(e)) })
        } else {
            (
                PipelineState::Probing { failures: failures + 1 },
                Step { notice, next: Next::Probe { wait_seconds: PROBE_BACKOFF_SECONDS } },
            )
        }
    }

    /// Advances a request of this client by one event.
    pub fn send_request(&mut self, state: PipelineState, event: Event) -> (r: (PipelineState, Step))
        ensures
            final(self).machine(r.0) == next_machine(old(self).machine(state), event),
            r.1@ == next_step(old(self).machine(state), event),
            final(self).base() == old(self).base(),
    {
        match state {
            PipelineState::Probing { failures } => match event {
                Event::ProbeFailed => Self::check_connectivity(failures),
                Event::ProbeOk { session } => {
                    let authorization = self.add_authorization_header(session);
                    (
                        PipelineState::Dispatched,
                        Step {
                            notice: None,
                            next: Next::Send {
                                authorization,
                                timeout_seconds: REQUEST_TIMEOUT_SECONDS,
                            },
                        },
                    )
                },
                _ => (state, Step { notice: None, next: Next::Idle }),
            },
            PipelineState::Dispatched => match event {
                Event::Response { status, body } => (
                    PipelineState::Finished,
                    classify_response(status, body),
                ),
                Event::Failed(f) => (PipelineState::Finished, classify_failure(f)),
                _ => (state, Step { notice: None, next: Next::Idle }),
            },
            PipelineState::Finished => (state, Step { notice: None, next: Next::Idle }),
        }
    }
}

/// Classifies the response to a dispatched request.
pub fn classify_response(status: u16, body: String) -> (r: Step)
    ensures
        r@ == classify_response_spec(status, body@),
{
    if 200 <= status && status < 300 {
        Step { notice: None, next: Next::Finish(Ok(Reply { status, body })) }
    } else {
        let message = if body.as_str().unicode_len() == 0 {
            String::from_str("Server error: ").concat(int_to_string(status as i64).as_str())
        } else {
            body
        };
        let e = if 400 <= status && status < 500 {
            AppError::Backend(message)
        } else {
            AppError::Internal(message)
        };
        Step {
            notice: Some(ErrorNotification::server_error("Server error")),
            next: Next::Finish(Err(e)),
        }
    }
}

/// Classifies a transport failure of a dispatched request.
pub fn classify_failure(f: TransportFailure) -> (r: Step)
    ensures
        r@ == classify_failure_spec(f),
{
    let message = match f {
        TransportFailure::Timeout => String::from_str("Request timeout"),
        TransportFailure::Connect => String::from_str("Connection refused"),
        TransportFailure::Other(text) => text,
    };
    Step { notice: None, next: Next::Finish(Err(AppError::Network(message))) }
}

/// The result of a decoding request: what the decoder produced, or an
/// internal failure that quotes the decoder's message.
pub open spec fn decode_failure_message(decoder_message: Seq<char>) -> Seq<char> {
    "Failed to parse response: "@ + decoder_message
}

/// Turns the outcome of decoding a response body into the request's result.
pub fn handle_response<T>(decoded: Result<T, String>) -> (r: AppResult<T>)
    ensures
        match decoded {
            Ok(value) => r == Ok::<T, AppError>(value),
            Err(m) => r matches Err(e) && e@ == (ErrorKind::Internal, decode_failure_message(m@)),
        },
{
    match decoded {
        Ok(value) => Ok(value),
        Err(m) => Err(
            AppError::Internal(String::from_str("Failed to parse response: ").concat(m.as_str())),
        ),
    }
}

} // verus!
