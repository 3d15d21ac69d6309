//! The backend's endpoint, the requests an agent sends to it, and what its
//! replies mean.

use vstd::prelude::*;
use vstd::arithmetic::power2::{lemma2_to64, lemma_pow2_strictly_increases, pow2};
use vstd::string::StringExecFns;
use crate::config::Config;
use crate::models::{RegisterResponse, RegisterResponseView};
use crate::status::{status_line, HttpStatus};
use crate::text::{trim_end, trim_end_matches};

verus! {

/// Seconds after which a request is given up.
pub const REQUEST_TIMEOUT_SECS: u64 = 30;

/// Header that carries the API key.
pub const API_KEY_HEADER: &'static str = "X-API-Key";

/// What the name that the agent sends of itself begins with; its version
/// follows.
pub const USER_AGENT_PREFIX: &'static str = "nubilus-agent/";

/// Path of the registration endpoint below the base URL.
pub const REGISTER_PATH: &'static str = "/api/ingest/register";

/// Path of the metrics endpoint below the base URL.
pub const METRICS_PATH: &'static str = "/api/ingest/metrics";

/// Path of the heartbeat endpoint below the base URL.
pub const HEARTBEAT_PATH: &'static str = "/api/ingest/heartbeat";

/// How a metrics submission is called in messages.
pub const SUBMIT_METRICS: &'static str = "submit metrics";

/// How a heartbeat is called in messages.
pub const HEARTBEAT: &'static str = "heartbeat";

/// Server identity reported where a successful registration names none.
pub const UNKNOWN_SERVER_ID: &'static str = "unknown";

/// Why a call to the backend did not succeed.
#[derive(Debug, PartialEq, Eq)]
pub enum ApiError {
    /// The API key was refused.
    Unauthorized,
    /// The backend does not know this server.
    NotRegistered,
    /// The backend asks for fewer requests.
    RateLimited,
    /// The backend failed; holds the body of its reply.
    ServerError(String),
    /// The request did not complete; holds the transport's account of it.
    NetworkError(String),
    /// Anything else; holds a description.
    Other(String),
}

/// An [`ApiError`] with its details as plain text.
pub enum ApiErrorView {
    Unauthorized,
    NotRegistered,
    RateLimited,
    ServerError(Seq<char>),
    NetworkError(Seq<char>),
    Other(Seq<char>),
}

impl ApiErrorView {
    /// The error in words.
    pub open spec fn text(self) -> Seq<char> {
        match self {
            ApiErrorView::Unauthorized => "Authentication failed: invalid API key"@,
            ApiErrorView::NotRegistered => "Server not registered, need to re-register"@,
            ApiErrorView::RateLimited => "Rate limited, backing off"@,
            ApiErrorView::ServerError(detail) => "Server error: "@ + detail,
            ApiErrorView::NetworkError(detail) => "Network error: "@ + detail,
            ApiErrorView::Other(detail) => "Unexpected error: "@ + detail,
        }
    }
}

impl View for ApiError {
    type V = ApiErrorView;

    open spec fn view(&self) -> ApiErrorView {
        match self {
            ApiError::Unauthorized => ApiErrorView::Unauthorized,
            ApiError::NotRegistered => ApiErrorView::NotRegistered,
            ApiError::RateLimited => ApiErrorView::RateLimited,
            ApiError::ServerError(detail) => ApiErrorView::ServerError(detail@),
            ApiError::NetworkError(detail) => ApiErrorView::NetworkError(detail@),
            ApiError::Other(detail) => ApiErrorView::Other(detail@),
        }
    }
}

impl Clone for ApiError {
    fn clone(&self) -> (copy: ApiError)
        ensures
            copy == *self,
    {
        match self {
            ApiError::Unauthorized => ApiError::Unauthorized,
            ApiError::NotRegistered => ApiError::NotRegistered,
            ApiError::RateLimited => ApiError::RateLimited,
            ApiError::ServerError(detail) => ApiError::ServerError(detail.clone()),
            ApiError::NetworkError(detail) => ApiError::NetworkError(detail.clone()),
            ApiError::Other(detail) => ApiError::Other(detail.clone()),
        }
    }
}

impl ApiError {
    /// The error in words.
    pub fn message(&self) -> (text: String)
        ensures
            text@ == self@.text(),
    {
        match self {
            ApiError::Unauthorized => String::from_str("Authentication failed: invalid API key"),
            ApiError::NotRegistered => String::from_str(
                "Server not registered, need to re-register",
            ),
            ApiError::RateLimited => String::from_str("Rate limited, backing off"),
            ApiError::ServerError(detail) => String::from_str("Server error: ").concat(
                detail.as_str(),
            ),
            ApiError::NetworkError(detail) => String::from_str("Network error: ").concat(
                detail.as_str(),
            ),
            ApiError::Other(detail) => String::from_str("Unexpected error: ").concat(
                detail.as_str(),
            ),
        }
    }
}

/// What came back for a request: the status and the body as text (empty
/// where the body could not be read).
#[derive(Debug, PartialEq, Eq)]
pub struct HttpReply {
    pub status: HttpStatus,
    pub body: String,
}

/// What came back for a registration: the status, the body as text, and the
/// body decoded as a [`RegisterResponse`], or the decoder's complaint.
#[derive(Debug, PartialEq, Eq)]
pub struct RegisterReply {
    pub status: HttpStatus,
    pub body: String,
    pub decoded: Result<RegisterResponse, String>,
}

/// Describes a reply to `operation` whose status, written as `line`, is none
/// of those that the agent knows how to take.
pub open spec fn unexpected_status_text(
    line: Seq<char>,
    operation: Seq<char>,
    body: Seq<char>,
) -> Seq<char> {
    "Unexpected status "@ + line + " during "@ + operation + ": "@ + body
}

/// Describes a reply to a registration whose status, written as `line`, is
/// none of those that the agent knows how to take.
pub open spec fn unexpected_registration_text(line: Seq<char>, body: Seq<char>) -> Seq<char> {
    "Unexpected status "@ + line + ": "@ + body
}

/// What a reply with status `code` and the given body means for the
/// operation called `operation`.
pub open spec fn classify(code: u16, body: Seq<char>, operation: Seq<char>) -> Result<
    (),
    ApiErrorView,
> {
    if code == 200 || code == 201 || code == 204 {
        Ok(())
    } else if code == 401 {
        Err(ApiErrorView::Unauthorized)
    } else if code == 404 {
        Err(ApiErrorView::NotRegistered)
    } else if code == 429 {
        Err(ApiErrorView::RateLimited)
    } else if 500 <= code < 600 {
        Err(ApiErrorView::ServerError(body))
    } else {
        Err(ApiErrorView::Other(unexpected_status_text(status_line(code), operation, body)))
    }
}

/// What the body of an accepted registration means: the server's identity
/// where the backend reports success, else an error with its message.
pub open spec fn registration_result(decoded: Result<RegisterResponseView, Seq<char>>) -> Result<
    Seq<char>,
    ApiErrorView,
> {
    match decoded {
        Ok(response) => if response.success {
            match response.data {
                Some(data) => Ok(data.server_id),
                None => Ok(UNKNOWN_SERVER_ID@),
            }
        } else {
            Err(ApiErrorView::Other(response.message))
        },
        Err(complaint) => Err(ApiErrorView::Other("Failed to parse response: "@ + complaint)),
    }
}

/// What a reply to a registration means, given its status, its body as text
/// and its body decoded.
pub open spec fn classify_registration(
    code: u16,
    body: Seq<char>,
    decoded: Result<RegisterResponseView, Seq<char>>,
) -> Result<Seq<char>, ApiErrorView> {
    if code == 200 || code == 201 {
        registration_result(decoded)
    } else if code == 401 {
        Err(ApiErrorView::Unauthorized)
    } else if code == 429 {
        Err(ApiErrorView::RateLimited)
    } else if 500 <= code < 600 {
        Err(ApiErrorView::ServerError(body))
    } else {
        Err(ApiErrorView::Other(unexpected_registration_text(status_line(code), body)))
    }
}

/// The model of a decoded registration body.
pub open spec fn decoded_view(decoded: Result<RegisterResponse, String>) -> Result<
    RegisterResponseView,
    Seq<char>,
> {
    match decoded {
        Ok(response) => Ok(response@),
        Err(complaint) => Err(complaint@),
    }
}

/// The model of the result of a call that returns nothing.
pub open spec fn ack_view(result: Result<(), ApiError>) -> Result<(), ApiErrorView> {
    match result {
        Ok(_) => Ok(()),
        Err(error) => Err(error@),
    }
}

/// The model of the result of a registration.
pub open spec fn id_view(result: Result<String, ApiError>) -> Result<Seq<char>, ApiErrorView> {
    match result {
        Ok(server_id) => Ok(server_id@),
        Err(error) => Err(error@),
    }
}

/// What sending a request for `operation` came to: the reply classified, or
/// a network error where no reply came.
pub open spec fn delivery_result(sent: Result<HttpReply, String>, operation: Seq<char>) -> Result<
    (),
    ApiErrorView,
> {
    match sent {
        Ok(reply) => classify(reply.status.code(), reply.body@, operation),
        Err(failure) => Err(ApiErrorView::NetworkError(failure@)),
    }
}

/// What sending a registration came to.
pub open spec fn registration_delivery_result(sent: Result<RegisterReply, String>) -> Result<
    Seq<char>,
    ApiErrorView,
> {
    match sent {
        Ok(reply) => classify_registration(
            reply.status.code(),
            reply.body@,
            decoded_view(reply.decoded),
        ),
        Err(failure) => Err(ApiErrorView::NetworkError(failure@)),
    }
}

/// The statuses 200, 201 and 204 always classify as success, 401 as
/// `Unauthorized`, 404 as `NotRegistered`, 429 as `RateLimited` and every
/// 5xx as `ServerError` with the reply's body, whatever the operation.
pub proof fn lemma_classification_by_status(code: u16, body: Seq<char>, operation: Seq<char>)
    ensures
        code == 200 || code == 201 || code == 204 <==> classify(code, body, operation) is Ok,
        code == 401 <==> classify(code, body, operation) == Err::<(), ApiErrorView>(
            ApiErrorView::Unauthorized,
        ),
        code == 404 <==> classify(code, body, operation) == Err::<(), ApiErrorView>(
            ApiErrorView::NotRegistered,
        ),
        code == 429 <==> classify(code, body, operation) == Err::<(), ApiErrorView>(
            ApiErrorView::RateLimited,
        ),
        500 <= code < 600 <==> classify(code, body, operation) == Err::<(), ApiErrorView>(
            ApiErrorView::ServerError(body),
        ),
{
}

/// A registration is classified like any other call on 401, 429 and 5xx, and
/// succeeds on no status but 200 and 201.
pub proof fn lemma_registration_by_status(
    code: u16,
    body: Seq<char>,
    decoded: Result<RegisterResponseView, Seq<char>>,
)
    ensures
        code == 401 <==> classify_registration(code, body, decoded) == Err::<
            Seq<char>,
            ApiErrorView,
        >(ApiErrorView::Unauthorized),
        code == 429 <==> classify_registration(code, body, decoded) == Err::<
            Seq<char>,
            ApiErrorView,
        >(ApiErrorView::RateLimited),
        500 <= code < 600 <==> classify_registration(code, body, decoded) == Err::<
            Seq<char>,
            ApiErrorView,
        >(ApiErrorView::ServerError(body)),
        classify_registration(code, body, decoded) is Ok ==> code == 200 || code == 201,
{
}

/// A registration that the backend answers with `success: false` is an
/// error on every status, and on 200 and 201 it is `Other` with the
/// backend's message.
pub proof fn lemma_refused_registration_is_an_error(
    code: u16,
    body: Seq<char>,
    response: RegisterResponseView,
)
    requires
        !response.success,
    ensures
        classify_registration(code, body, Ok(response)) is Err,
        code == 200 || code == 201 ==> classify_registration(code, body, Ok(response)) == Err::<
            Seq<char>,
            ApiErrorView,
        >(ApiErrorView::Other(response.message)),
{
}

/// The error for a reply to `operation` whose status, written as `line`, is
/// none of those that the agent knows how to take.
pub fn unexpected_status(line: &str, operation: &str, body: &str) -> (error: ApiError)
    ensures
        error@ == ApiErrorView::Other(unexpected_status_text(line@, operation@, body@)),
{
    let mut text = String::from_str("Unexpected status ");
    text.append(line);
    text.append(" during ");
    text.append(operation);
    text.append(": ");
    text.append(body);
    ApiError::Other(text)
}

/// The error for a reply to a registration whose status, written as `line`,
/// is none of those that the agent knows how to take.
pub fn unexpected_registration_status(line: &str, body: &str) -> (error: ApiError)
    ensures
        error@ == ApiErrorView::Other(unexpected_registration_text(line@, body@)),
{
    let mut text = String::from_str("Unexpected status ");
    text.append(line);
    text.append(": ");
    text.append(body);
    ApiError::Other(text)
}

/// Reads the decoded body of an accepted registration.
pub fn read_registration(decoded: Result<RegisterResponse, String>) -> (result: Result<
    String,
    ApiError,
>)
    ensures
        id_view(result) == registration_result(decoded_view(decoded)),
{
    match decoded {
        Ok(response) => {
            if response.success {
                match response.data {
                    Some(data) => Ok(data.server_id),
                    None => Ok(String::from_str(UNKNOWN_SERVER_ID)),
                }
            } else {
                Err(ApiError::Other(response.message))
            }
        },
        Err(complaint) => Err(
            ApiError::Other(
                String::from_str("Failed to parse response: ").concat(complaint.as_str()),
            ),
        ),
    }
}

/// What an agent needs to address the backend: where it is and the key to
/// present. It holds no connection; it names the requests to send and says
/// what their replies mean.
#[derive(Debug, PartialEq, Eq)]
pub struct ApiClient {
    base_url: String,
    api_key: String,
}

/// What an [`ApiClient`] holds, as plain text.
pub struct ApiClientView {
    pub base_url: Seq<char>,
    pub api_key: Seq<char>,
}

impl View for ApiClient {
    type V = ApiClientView;

    closed spec fn view(&self) -> ApiClientView {
        ApiClientView { base_url: self.base_url@, api_key: self.api_key@ }
    }
}

impl ApiClient {
    /// A client for the backend that `config` names. Slashes at the end of
    /// the configured address are dropped.
    pub fn new(config: &Config) -> (client: ApiClient)
        ensures
            client@.base_url == trim_end(config.server.api_url@, '/'),
            client@.api_key == config.server.api_key@,
    {
        let base_url = String::from_str(trim_end_matches(config.server.api_url.as_str(), '/'));
        ApiClient { base_url, api_key: config.server.api_key.clone() }
    }

    /// The backend's address, without a slash at its end.
    pub fn base_url(&self) -> (url: &str)
        ensures
            url@ == self@.base_url,
    {
        self.base_url.as_str()
    }

    /// The key to send under [`API_KEY_HEADER`].
    pub fn api_key(&self) -> (key: &str)
        ensures
            key@ == self@.api_key,
    {
        self.api_key.as_str()
    }

    /// What the agent of version `version` calls itself towards the backend.
    pub fn user_agent(version: &str) -> (name: String)
        ensures
            name@ == USER_AGENT_PREFIX@ + version@,
    {
        String::from_str(USER_AGENT_PREFIX).concat(version)
    }

    /// Address of the registration endpoint.
    pub fn register_url(&self) -> (url: String)
        ensures
            url@ == self@.base_url + REGISTER_PATH@,
    {
        self.base_url.clone().concat(REGISTER_PATH)
    }

    /// Address of the metrics endpoint.
    pub fn metrics_url(&self) -> (url: String)
        ensures
            url@ == self@.base_url + METRICS_PATH@,
    {
        self.base_url.clone().concat(METRICS_PATH)
    }

    /// Address of the heartbeat endpoint.
    pub fn heartbeat_url(&self) -> (url: String)
        ensures
            url@ == self@.base_url + HEARTBEAT_PATH@,
    {
        self.base_url.clone().concat(HEARTBEAT_PATH)
    }

    /// Says what a reply means for the operation called `operation`.
    pub fn handle_response(&self, reply: HttpReply, operation: &str) -> (result: Result<
        (),
        ApiError,
    >)
        ensures
            ack_view(result) == classify(reply.status.code(), reply.body@, operation@),
    {
        let code = reply.status.as_u16();
        if code == 200 || code == 201 || code == 204 {
            Ok(())
        } else if code == 401 {
            Err(ApiError::Unauthorized)
        } else if code == 404 {
            Err(ApiError::NotRegistered)
        } else if code == 429 {
            Err(ApiError::RateLimited)
        } else if reply.status.is_server_error() {
            Err(ApiError::ServerError(reply.body))
        } else {
            let line = reply.status.line();
            Err(unexpected_status(line.as_str(), operation, reply.body.as_str()))
        }
    }

    /// Says what became of a registration: the server's identity where the
    /// backend accepted it, else the error.
    pub fn register(&self, sent: Result<RegisterReply, String>) -> (result: Result<
        String,
        ApiError,
    >)
        ensures
            id_view(result) == registration_delivery_result(sent),
    {
        let reply = match sent {
            Ok(reply) => reply,
            Err(failure) => {
                return Err(ApiError::NetworkError(failure));
            },
        };
        let code = reply.status.as_u16();
        if code == 200 || code == 201 {
            read_registration(reply.decoded)
        } else if code == 401 {
            Err(ApiError::Unauthorized)
        } else if code == 429 {
            Err(ApiError::RateLimited)
        } else if reply.status.is_server_error() {
            Err(ApiError::ServerError(reply.body))
        } else {
            let line = reply.status.line();
            Err(unexpected_registration_status(line.as_str(), reply.body.as_str()))
        }
    }

    /// Says what became of a metrics submission.
    pub fn submit_metrics(&self, sent: Result<HttpReply, String>) -> (result: Result<(), ApiError>)
        ensures
            ack_view(result) == delivery_result(sent, SUBMIT_METRICS@),
    {
        match sent {
            Ok(reply) => self.handle_response(reply, SUBMIT_METRICS),
            Err(failure) => Err(ApiError::NetworkError(failure)),
        }
    }

    /// Says what became of a heartbeat.
    pub fn heartbeat(&self, sent: Result<HttpReply, String>) -> (result: Result<(), ApiError>)
        ensures
            ack_view(result) == delivery_result(sent, HEARTBEAT@),
    {
        match sent {
            Ok(reply) => self.handle_response(reply, HEARTBEAT),
            Err(failure) => Err(ApiError::NetworkError(failure)),
        }
    }
}

/// Longest delay between two registration attempts, in seconds.
pub const MAX_BACKOFF_SECS: u64 = 300;

/// Delay before retry number `attempt`, in seconds: two to the power of
/// `attempt`, capped at [`MAX_BACKOFF_SECS`].
pub open spec fn backoff_secs(attempt: nat) -> nat {
    if pow2(attempt) < MAX_BACKOFF_SECS as nat {
        pow2(attempt)
    } else {
        MAX_BACKOFF_SECS as nat
    }
}

/// From the ninth attempt on the delay sits at the cap.
pub proof fn lemma_backoff_capped(attempt: nat)
    requires
        attempt >= 9,
    ensures
        backoff_secs(attempt) == MAX_BACKOFF_SECS,
{
    lemma2_to64();
    if attempt > 9 {
        lemma_pow2_strictly_increases(9, attempt);
    }
}

/// The delay is at least one second and never exceeds the cap.
pub proof fn lemma_backoff_bounds(attempt: nat)
    ensures
        1 <= backoff_secs(attempt) <= MAX_BACKOFF_SECS,
{
    vstd::arithmetic::power2::lemma_pow2_pos(attempt);
}

/// A later attempt never waits less than an earlier one.
pub proof fn lemma_backoff_monotonic(earlier: nat, later: nat)
    requires
        earlier <= later,
    ensures
        backoff_secs(earlier) <= backoff_secs(later),
{
    if earlier < later {
        lemma_pow2_strictly_increases(earlier, later);
    }
}

/// Exponential backoff in seconds: doubles with every attempt and saturates
/// at [`MAX_BACKOFF_SECS`] however large `attempt` is.
pub fn backoff_duration(attempt: u32) -> (secs: u64)
    ensures
        secs == backoff_secs(attempt as nat),
{
    let mut delay: u64 = 1;
    let mut step: u32 = 0;
    proof {
        lemma2_to64();
    }
    while step < attempt && delay < MAX_BACKOFF_SECS
        invariant
            step <= attempt,
            delay == pow2(step as nat),
            delay < 2 * MAX_BACKOFF_SECS,
        decreases attempt - step,
    {
        proof {
            vstd::arithmetic::power2::lemma_pow2_unfold((step + 1) as nat);
        }
        delay = delay * 2;
        step = step + 1;
    }
    if delay < MAX_BACKOFF_SECS {
        delay
    } else {
        proof {
            if step < attempt {
                lemma_pow2_strictly_increases(step as nat, attempt as nat);
            }
        }
        MAX_BACKOFF_SECS
    }
}

/// What a trial heartbeat says about the connection to the backend.
#[derive(Debug, PartialEq, Eq)]
pub enum ConnectionReport {
    /// The backend answered and accepted the key.
    Connected,
    /// The backend refused the key.
    AuthenticationFailed,
    /// The backend answered, but does not know this server yet, as is usual
    /// before the first run.
    NotYetRegistered,
    /// The trial failed otherwise; holds the error.
    Failed(ApiError),
}

/// A [`ConnectionReport`] with its error as plain text.
pub enum ConnectionReportView {
    Connected,
    AuthenticationFailed,
    NotYetRegistered,
    Failed(ApiErrorView),
}

impl View for ConnectionReport {
    type V = ConnectionReportView;

    open spec fn view(&self) -> ConnectionReportView {
        match self {
            ConnectionReport::Connected => ConnectionReportView::Connected,
            ConnectionReport::AuthenticationFailed => ConnectionReportView::AuthenticationFailed,
            ConnectionReport::NotYetRegistered => ConnectionReportView::NotYetRegistered,
            ConnectionReport::Failed(error) => ConnectionReportView::Failed(error@),
        }
    }
}

/// Reads the outcome of a trial heartbeat.
pub fn test_connection(outcome: Result<(), ApiError>) -> (report: ConnectionReport)
    ensures
        report@ == match ack_view(outcome) {
            Ok(_) => ConnectionReportView::Connected,
            Err(ApiErrorView::Unauthorized) => ConnectionReportView::AuthenticationFailed,
            Err(ApiErrorView::NotRegistered) => ConnectionReportView::NotYetRegistered,
            Err(error) => ConnectionReportView::Failed(error),
        },
{
    match outcome {
        Ok(_) => ConnectionReport::Connected,
        Err(ApiError::Unauthorized) => ConnectionReport::AuthenticationFailed,
        Err(ApiError::NotRegistered) => ConnectionReport::NotYetRegistered,
        Err(error) => ConnectionReport::Failed(error),
    }
}

} // verus!
