//! The client: the shared HTTPS transport, the service credentials, and the
//! non-blocking delivery of serialized payloads.

use crate::status::ResponseStatus;
use hyper::client::HttpConnector;
use hyper::Body;
use hyper::Client as HyperClient;
use hyper_tls::HttpsConnector;
use std::io::Write;
use std::sync::mpsc::Receiver;
use std::sync::Arc;
use tokio::runtime::Runtime;
use vstd::prelude::*;
use vstd::string::StringExecFns;

verus! {

/// Declares `hyper`'s HTTP client so the transport can hold one.
#[verifier::external_type_specification]
#[verifier::external_body]
#[verifier::reject_recursive_types(C)]
#[verifier::reject_recursive_types(B)]
pub struct ExHyperClient<C, B>(HyperClient<C, B>);

/// Declares `hyper`'s plain TCP connector, the base of the TLS connector.
#[verifier::external_type_specification]
#[verifier::external_body]
#[verifier::reject_recursive_types(R)]
pub struct ExHttpConnector<R>(HttpConnector<R>);

/// Declares the connector's default name resolver.
#[verifier::external_type_specification]
#[verifier::external_body]
pub struct ExGaiResolver(hyper::client::connect::dns::GaiResolver);

/// Declares `hyper_tls`'s HTTPS connector.
#[verifier::external_type_specification]
#[verifier::external_body]
#[verifier::reject_recursive_types(T)]
pub struct ExHttpsConnector<T>(HttpsConnector<T>);

/// Declares `hyper`'s request body type.
#[verifier::external_type_specification]
#[verifier::external_body]
pub struct ExBody(Body);

/// Declares the HTTP request type that carries a payload to the endpoint.
#[verifier::external_type_specification]
#[verifier::external_body]
#[verifier::reject_recursive_types(T)]
pub struct ExRequest<T>(hyper::Request<T>);

/// Declares `hyper`'s error type, logged on a failed delivery.
#[verifier::external_type_specification]
#[verifier::external_body]
pub struct ExHyperError(hyper::Error);

/// Declares `tokio`'s runtime, whose workers drive dispatched requests.
#[verifier::external_type_specification]
#[verifier::external_body]
pub struct ExRuntime(Runtime);

/// Declares the standard channel receiver through which a background
/// dispatch hands back its outcome.
#[verifier::external_type_specification]
#[verifier::external_body]
#[verifier::reject_recursive_types(T)]
pub struct ExReceiver<T>(Receiver<T>);

/// The service's item-ingestion endpoint.
pub const ITEMS_URL: &'static str = "https://api.rollbar.com/api/1/item/";

/// The status code with which the service accepts an item.
pub const SUCCESS_STATUS: u16 = 200;

/// The shared HTTPS transport: an HTTP client over a TLS-capable connector,
/// and the background runtime whose workers drive dispatched requests.  It is
/// reference-counted and safe to use from concurrent dispatches.
pub struct Transport {
    http: Arc<HyperClient<HttpsConnector<HttpConnector>, Body>>,
    runtime: Arc<Runtime>,
}

/// Relies on `hyper_tls::HttpsConnector::new`: an HTTPS-capable connector.
/// Aborts the process if the TLS backend cannot initialize: without it no
/// report can ever be sent, so this failure is deliberately fatal.
#[verifier::external_body]
fn new_https_connector() -> HttpsConnector<HttpConnector> {
    HttpsConnector::new()
}

/// Relies on `hyper::client::Builder::build`: an HTTP client with default
/// configuration over the given connector.
#[verifier::external_body]
fn new_http_client(
    connector: HttpsConnector<HttpConnector>,
) -> HyperClient<HttpsConnector<HttpConnector>, Body> {
    HyperClient::builder().build::<_, Body>(connector)
}

/// Relies on `tokio::runtime::Runtime::new`: a multi-thread runtime.  Aborts
/// the process if the runtime cannot start, for the same reason as the
/// connector: the client is unusable without it.
#[verifier::external_body]
fn new_runtime() -> Runtime {
    Runtime::new().expect("runtime initialization failed")
}

/// Relies on the request builder of `hyper`'s `http` types: a POST request to
/// `url` whose body carries `payload`.  The builder chain errs only when a
/// piece fails to convert; `POST` is already a method and the fixed ingestion
/// endpoint parses as a URI, so for that `url` the request always builds.
#[verifier::external_body]
fn build_post_request(url: &str, payload: &str) -> (r: Option<hyper::Request<Body>>)
    requires
        url@ == ITEMS_URL@,
    ensures
        r is Some,
{
    hyper::Request::builder()
        .method(hyper::Method::POST)
        .uri(url)
        .body(Body::from(payload.to_string()))
        .ok()
}

/// Relies on `std::io::stderr`: logs a transport-level failure together with
/// the payload the application tried to report.
#[verifier::external_body]
fn log_delivery_error(error: &hyper::Error, payload: &str) {
    let _ = writeln!(
        std::io::stderr(),
        "could not deliver a report: {:?}\nthe report was: {}",
        error,
        payload,
    );
}

/// Relies on `std::io::stderr`: logs a status with which the service declined
/// a report.
#[verifier::external_body]
fn log_rejected_status(code: u16) {
    let _ = writeln!(std::io::stderr(), "the service did not accept the report: status {}", code);
}

/// Logs a received status to the diagnostic output when it is not the
/// canonical success code.
fn log_unless_success(outcome: &Option<u16>) {
    match outcome {
        Some(code) => {
            if *code != SUCCESS_STATUS {
                log_rejected_status(*code);
            }
        },
        None => {},
    }
}

/// Relies on `hyper::Client::request`, `futures::FutureExt::map` and
/// `tokio::runtime::Runtime::spawn`: issues the request off the calling
/// thread; the channel eventually receives the response's numeric status, or
/// nothing on a transport-level failure (which is logged together with the
/// payload).  The outcome depends on the network, so nothing is promised.
#[verifier::external_body]
fn spawn_delivery(
    transport: &Transport,
    request: hyper::Request<Body>,
    payload: String,
) -> Receiver<Option<u16>> {
    let (tx, rx) = std::sync::mpsc::channel();
    let task = futures::FutureExt::map(transport.http.request(request), move |result| {
        let outcome = match result {
            Ok(response) => Some(response.status().as_u16()),
            Err(error) => {
                log_delivery_error(&error, &payload);
                None
            },
        };
        log_unless_success(&outcome);
        let _ = tx.send(outcome);
    });
    transport.runtime.spawn(task);
    rx
}

/// Relies on `std::sync::mpsc::Receiver::recv`: the value the background
/// dispatch sent, or nothing if it ended without sending one.
#[verifier::external_body]
fn recv_outcome(rx: Receiver<Option<u16>>) -> Option<Option<u16>> {
    rx.recv().ok()
}

impl Transport {
    /// Builds the HTTPS transport once.  Fails fatally (process-level) if the
    /// TLS backend or the runtime cannot initialize.
    pub fn new() -> Transport {
        let connector = new_https_connector();
        let http = new_http_client(connector);
        let runtime = new_runtime();
        Transport { http: Arc::new(http), runtime: Arc::new(runtime) }
    }

    /// Issues an HTTPS POST of the raw JSON payload to the fixed ingestion
    /// endpoint, off the calling thread.  The returned handle is always a
    /// pending background dispatch: the built-in delivery never invents an
    /// already-resolved status.
    pub fn post(&self, payload: String) -> (h: DeliveryHandle)
        ensures
            h@ is Pending,
    {
        match build_post_request(ITEMS_URL, payload.as_str()) {
            Some(request) => DeliveryHandle {
                state: HandleState::Pending(spawn_delivery(self, request, payload)),
            },
            None => DeliveryHandle { state: HandleState::Ready(None) },
        }
    }
}

enum HandleState {
    Ready(Option<u16>),
    Pending(Receiver<Option<u16>>),
}

/// The eventually-available outcome of one dispatch.  Waiting on it is
/// optional: the dispatch proceeds in the background either way.
pub struct DeliveryHandle {
    state: HandleState,
}

/// What a delivery handle holds: an already-resolved outcome, or a pending
/// background dispatch.
pub enum DeliveryView {
    Ready(Option<u16>),
    Pending,
}

impl View for DeliveryHandle {
    type V = DeliveryView;

    closed spec fn view(&self) -> DeliveryView {
        match self.state {
            HandleState::Ready(s) => DeliveryView::Ready(s),
            HandleState::Pending(_) => DeliveryView::Pending,
        }
    }
}

/// The numeric code carried by an optional response status.
pub open spec fn opt_code(status: Option<ResponseStatus>) -> Option<u16> {
    match status {
        Some(st) => Some(st@),
        None => None,
    }
}

impl DeliveryHandle {
    /// A handle whose outcome is already resolved, with no background work.
    /// Custom delivery strategies use this to report their outcome.
    pub fn ready(status: Option<ResponseStatus>) -> (h: DeliveryHandle)
        ensures
            h@ == DeliveryView::Ready(opt_code(status)),
    {
        match status {
            Some(st) => DeliveryHandle { state: HandleState::Ready(Some(st.code())) },
            None => DeliveryHandle { state: HandleState::Ready(None) },
        }
    }

    /// Waits for the delivery outcome: the received HTTP status, or nothing if
    /// the transport failed.
    pub fn join(self) -> (r: Option<ResponseStatus>)
        ensures
            self@ matches DeliveryView::Ready(s) ==> opt_code(r) == s,
    {
        match self.state {
            HandleState::Ready(outcome) => match outcome {
                Some(code) => Some(ResponseStatus::from(code)),
                None => None,
            },
            HandleState::Pending(rx) => match recv_outcome(rx) {
                Some(Some(code)) => Some(ResponseStatus::from(code)),
                _ => None,
            },
        }
    }
}

/// A pluggable delivery mechanism: it takes the shared transport handle and
/// the serialized payload, dispatches the payload off the calling thread, and
/// returns a handle to the eventual outcome.
pub trait SendStrategy {
    fn dispatch(&self, transport: &Transport, payload: String) -> DeliveryHandle;
}

/// The built-in delivery strategy: an HTTPS POST to the ingestion endpoint.
pub struct DefaultDispatch;

impl SendStrategy for DefaultDispatch {
    fn dispatch(&self, transport: &Transport, payload: String) -> DeliveryHandle {
        transport.post(payload)
    }
}

/// The access point to the library: the shared transport and the service
/// credentials, immutable after construction and embedded in every payload.
pub struct Client {
    /// The shared transport handle, safe for concurrent dispatches.
    pub transport: Transport,
    /// The service access token, embedded in every outgoing payload.
    pub access_token: String,
    /// The reporting environment, embedded in every outgoing payload.
    pub environment: String,
}

impl Client {
    /// Create a new `Client`.  Constructs the shared HTTPS transport once;
    /// fails fatally if TLS initialization fails, since the client is
    /// unusable without it.
    pub fn new(access_token: &str, environment: &str) -> (c: Client)
        ensures
            c.access_token@ == access_token@,
            c.environment@ == environment@,
    {
        Client {
            transport: Transport::new(),
            access_token: String::from_str(access_token),
            environment: String::from_str(environment),
        }
    }

    /// The built-in delivery: posts the payload in the background.  The
    /// returned handle is always a pending background dispatch.
    pub(crate) fn send(&self, payload: String) -> (h: DeliveryHandle)
        ensures
            h@ is Pending,
    {
        self.transport.post(payload)
    }
}

} // verus!
