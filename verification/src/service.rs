//! What is said to the authorization service, and what it says.

use vstd::prelude::*;

use crate::metadata::DynamicField;
use crate::metadata::Metadata;
use crate::table::Table;

verus! {

/// A moment: seconds since the Unix epoch, and nanoseconds on top.
#[derive(Debug, Clone, Copy, PartialEq, Eq, Structural)]
pub struct Timestamp {
    pub seconds: i64,
    pub nanos: i32,
}

/// Calls `prost_types::Timestamp::from` on the time that the system clock
/// shows. Which moment that is, nothing says; its nanoseconds count up to, and
/// never reach, a full second.
#[verifier::external_body]
fn timestamp_now() -> (time: Timestamp)
    ensures
        0 <= time.nanos < 1_000_000_000,
{
    let now = prost_types::Timestamp::from(std::time::SystemTime::now());
    Timestamp { seconds: now.seconds, nanos: now.nanos }
}

/// Whether a time is one that the system clock showed when it was asked.
pub closed spec fn shown_by_the_clock(time: Timestamp) -> bool {
    call_ensures(timestamp_now, (), time)
}

/// The time that a clock tells, and no other.
fn told_by<F: FnOnce() -> Timestamp>(clock: F) -> (time: Timestamp)
    requires
        call_requires(clock, ()),
    ensures
        call_ensures(clock, (), time),
{
    clock()
}

/// The time that the system clock shows.
pub(crate) fn now() -> (time: Timestamp)
    ensures
        shown_by_the_clock(time),
        0 <= time.nanos < 1_000_000_000,
{
    told_by(timestamp_now)
}

/// A time that the clock showed is one that asking the clock gave, untouched.
proof fn clock_times_come_from_the_clock(time: Timestamp)
    requires
        shown_by_the_clock(time),
    ensures
        call_ensures(timestamp_now, (), time),
        0 <= time.nanos < 1_000_000_000,
{
}

/// A request as it is described to the service.
#[derive(Debug)]
pub struct HttpRequest {
    pub id: String,
    pub method: String,
    pub headers: Table<String>,
    pub path: String,
    pub host: String,
    pub scheme: String,
    pub protocol: String,
    pub query: String,
    pub fragment: String,
    /// The length of the whole body, whatever is sent of it.
    pub size: i64,
    pub body: String,
    pub raw_body: Vec<u8>,
}

/// What the service is asked. It says nothing of the peers of the connection
/// or of its encryption.
#[derive(Debug)]
pub struct CheckRequest {
    pub time: Timestamp,
    pub http: HttpRequest,
    pub metadata_context: Option<Metadata>,
    pub context_extensions: Table<String>,
}

/// What a service that refuses a request wants the caller to be told. `H` is
/// the form in which the service names headers.
#[derive(Debug)]
pub struct DeniedHttpResponse<H> {
    pub status: Option<i32>,
    pub headers: Vec<H>,
    pub body: String,
}

/// What a service that lets a request through wants changed.
#[derive(Debug)]
pub struct OkHttpResponse<H> {
    pub headers: Vec<H>,
    pub headers_to_remove: Vec<String>,
    pub response_headers_to_add: Vec<H>,
}

#[derive(Debug)]
pub enum HttpResponse<H> {
    DeniedResponse(DeniedHttpResponse<H>),
    OkResponse(OkHttpResponse<H>),
}

/// What the service answers.
#[derive(Debug)]
pub struct CheckResponse<H> {
    /// The code of the answer; zero, like no code at all, lets the request through.
    pub status: Option<i32>,
    pub dynamic_metadata: Option<Vec<DynamicField>>,
    pub http_response: Option<HttpResponse<H>>,
}

impl<H> CheckResponse<H> {
    /// Whether the service lets the request through.
    pub open spec fn allows(self) -> bool {
        match self.status {
            Some(code) => code == 0,
            None => true,
        }
    }
}

} // verus!
