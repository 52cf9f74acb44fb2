//! Asking an authorization service about a request, and acting on its answer.

use http::HeaderMap;
use http::HeaderValue;
use vstd::prelude::*;

use crate::body::extract_body;
use crate::body::extracted;
use crate::config::Expression;
use crate::config::ExtAuthz;
use crate::config::FailureMode;
use crate::config::Protocol;
use crate::config::referents;
use crate::headers::collect_headers;
use crate::headers::collected;
use crate::headers::header_fields;
use crate::headers::is_empty;
use crate::headers::no_headers;
use crate::metadata::build_metadata_from_snapshot;
use crate::metadata::dynamic_metadata_read;
use crate::metadata::metadata_built;
use crate::metadata::read_dynamic_metadata;
use crate::metadata::Evaluation;
use crate::metadata::ExtAuthzDynamicMetadata;
use crate::resource::ResourceType;
use crate::service::now;
use crate::service::shown_by_the_clock;
use crate::service::CheckRequest;
use crate::service::CheckResponse;
use crate::service::HttpRequest;
use crate::service::HttpResponse;
use crate::service::Timestamp;
use crate::snapshot::RequestSnapshot;
use crate::snapshot::RequestTarget;
use crate::status::is_status;
use crate::status::low_sixteen_bits;
use crate::status::status_or_forbidden;
use crate::status::valid_status;
use crate::status::wire_status;
use crate::status::FORBIDDEN;
use crate::status::INTERNAL_SERVER_ERROR;
use crate::table::Table;

verus! {

/// A refused request, and what the caller is told.
#[derive(Debug)]
pub struct McpExtAuthzDenied {
    pub response_headers: HeaderMap<HeaderValue>,
    pub status_code: u16,
    pub body: String,
}

impl McpExtAuthzDenied {
    /// Whether the refusal has the given status and body and no headers.
    pub open spec fn is_plain(self, status: int, body: Seq<char>) -> bool {
        is_empty(self.response_headers) && self.status_code == status && self.body@ == body
    }

    /// A word on what happened, for logs.
    pub fn description(&self) -> (text: String)
        ensures
            text@ == "mcp ext_authz denied"@,
    {
        "mcp ext_authz denied".to_owned()
    }

    /// A refusal without headers.
    fn plain(status_code: u16, body: &str) -> (denied: Self)
        ensures
            denied.is_plain(status_code as int, body@),
    {
        McpExtAuthzDenied { response_headers: no_headers(), status_code, body: body.to_owned() }
    }
}

impl Default for McpExtAuthzDenied {
    /// `403 Forbidden`, without headers or body.
    fn default() -> (denied: Self)
        ensures
            denied.is_plain(FORBIDDEN as int, Seq::empty()),
    {
        McpExtAuthzDenied {
            response_headers: no_headers(),
            status_code: FORBIDDEN,
            body: String::new(),
        }
    }
}

/// A request that goes through, and what is changed on its way.
#[derive(Debug)]
pub struct McpExtAuthzOkResponse {
    pub request_headers_to_add: HeaderMap<HeaderValue>,
    pub request_headers_to_remove: Vec<String>,
    pub response_headers_to_add: HeaderMap<HeaderValue>,
    pub dynamic_metadata: Option<ExtAuthzDynamicMetadata>,
}

impl McpExtAuthzOkResponse {
    /// Whether no header is added or removed.
    pub open spec fn keeps_headers(self) -> bool {
        &&& is_empty(self.request_headers_to_add)
        &&& self.request_headers_to_remove@ == Seq::<String>::empty()
        &&& is_empty(self.response_headers_to_add)
    }
}

impl Default for McpExtAuthzOkResponse {
    /// Nothing is changed.
    fn default() -> (ok: Self)
        ensures
            ok.keeps_headers(),
            ok.dynamic_metadata is None,
    {
        McpExtAuthzOkResponse {
            request_headers_to_add: no_headers(),
            request_headers_to_remove: Vec::new(),
            response_headers_to_add: no_headers(),
            dynamic_metadata: None,
        }
    }
}

/// What an authorization comes to.
pub type Verdict = Result<McpExtAuthzOkResponse, McpExtAuthzDenied>;

/// What a caller is told when the service did not say.
pub open spec fn denial_text() -> Seq<char> {
    "external authorization denied"@
}

/// Whether a verdict is the one that a failure mode asks for when the service
/// cannot be asked.
pub open spec fn follows_failure_mode(mode: FailureMode, verdict: Verdict) -> bool {
    match mode {
        FailureMode::Allow => verdict matches Ok(ok) && ok.keeps_headers() && ok.dynamic_metadata
            is None,
        FailureMode::Deny => verdict matches Err(denied) && denied.is_plain(
            FORBIDDEN as int,
            denial_text(),
        ),
        FailureMode::DenyWithStatus(code) => verdict matches Err(denied) && denied.is_plain(
            status_or_forbidden(code as int),
            denial_text(),
        ),
    }
}

/// External authorization of requests to Model Context Protocol backends.
#[derive(Debug)]
pub struct McpExtAuthz(pub ExtAuthz);

impl McpExtAuthz {
    /// Every expression that the configuration holds.
    pub fn expressions(&self) -> (list: Vec<&Expression>)
        ensures
            referents(list@) == self.0.protocol.all_expressions(),
    {
        self.0.expressions()
    }

    /// What becomes of a request when the service cannot be asked.
    pub fn failure_mode(&self) -> (mode: &FailureMode)
        ensures
            *mode == self.0.failure_mode,
    {
        &self.0.failure_mode
    }

    /// Returns `Ok` if the failure mode lets the request through, and otherwise
    /// `Err` with the refusal. The message says what failed; the verdict does
    /// not depend on it.
    pub fn handle_auth_failure(&self, msg: &str) -> (verdict: Verdict)
        ensures
            follows_failure_mode(self.0.failure_mode, verdict),
    {
        match self.failure_mode() {
            FailureMode::Allow => Ok(McpExtAuthzOkResponse::default()),
            FailureMode::Deny => Err(
                McpExtAuthzDenied::plain(FORBIDDEN, "external authorization denied"),
            ),
            FailureMode::DenyWithStatus(code) => Err(
                McpExtAuthzDenied::plain(valid_status(*code), "external authorization denied"),
            ),
        }
    }
}

/// The path that the service is shown: with the query where the target has one.
pub open spec fn shown_path(target: RequestTarget) -> Seq<char> {
    match target.path_and_query {
        Some(text) => text@,
        None => target.path@,
    }
}

/// The text that may be there, or another in its place.
pub open spec fn text_or(text: Option<String>, otherwise: Seq<char>) -> Seq<char> {
    match text {
        Some(t) => t@,
        None => otherwise,
    }
}

fn owned_or(text: &Option<String>, otherwise: &str) -> (result: String)
    ensures
        result@ == text_or(*text, otherwise@),
{
    match text {
        Some(t) => t.clone(),
        None => otherwise.to_owned(),
    }
}

impl McpExtAuthz {
    /// Whether a request is described to the service as it came in.
    pub open spec fn describes<C: Fn(&HeaderMap<HeaderValue>, &String) -> Option<String>>(
        self,
        snapshot: RequestSnapshot,
        collect: C,
        http: HttpRequest,
    ) -> bool {
        &&& http.id@ == Seq::<char>::empty()
        &&& http.method@ == snapshot.method@
        &&& collected(
            collect,
            self.0.include_request_headers@,
            snapshot.headers,
            http.headers@,
        )
        &&& http.path@ == shown_path(snapshot.path)
        &&& http.host@ == text_or(snapshot.host, Seq::empty())
        &&& http.scheme@ == text_or(snapshot.scheme, "http"@)
        &&& http.protocol@ == "HTTP/1.1"@
        &&& http.query@ == Seq::<char>::empty()
        &&& http.fragment@ == Seq::<char>::empty()
        &&& extracted(
            self.0.include_request_body,
            match snapshot.body {
                Some(buffered) => Some(buffered@),
                None => None,
            },
            http.body@,
            http.raw_body@,
            http.size as int,
        )
    }

    /// Whether this is the question that is put to the service about a request.
    /// Only over gRPC is there one.
    pub open spec fn asks<
        C: Fn(&HeaderMap<HeaderValue>, &String) -> Option<String>,
        E: Fn(&Expression, &RequestSnapshot, Option<&ResourceType>) -> Evaluation,
    >(
        self,
        time: Timestamp,
        snapshot: &RequestSnapshot,
        mcp: Option<&ResourceType>,
        collect: C,
        eval: E,
        request: CheckRequest,
    ) -> bool {
        match self.0.protocol {
            Protocol::Grpc { context, metadata } => {
                &&& request.time == time
                &&& self.describes(*snapshot, collect, request.http)
                &&& metadata_built(eval, metadata, snapshot, mcp, request.metadata_context)
                &&& request.context_extensions@ == match context {
                    Some(table) => table@,
                    None => Map::empty(),
                }
            },
            Protocol::Http { .. } => false,
        }
    }

    /// What the service is asked about a request that came in at a given time:
    /// its headers, path and body as the configuration selects them, and
    /// metadata on who asks for what. Only gRPC is supported; with another
    /// protocol the request is refused.
    ///
    /// `collect` makes one text of the values of a header, and `eval` evaluates
    /// an expression about the request.
    pub fn check_request_at<
        C: Fn(&HeaderMap<HeaderValue>, &String) -> Option<String>,
        E: Fn(&Expression, &RequestSnapshot, Option<&ResourceType>) -> Evaluation,
    >(
        &self,
        time: Timestamp,
        snapshot: &RequestSnapshot,
        mcp: Option<&ResourceType>,
        collect: C,
        eval: E,
    ) -> (result: Result<CheckRequest, McpExtAuthzDenied>)
        requires
            forall|name: &String| call_requires(collect, (&snapshot.headers, name)),
            forall|e: &Expression| call_requires(eval, (e, snapshot, mcp)),
        ensures
            result is Ok <==> self.0.protocol is Grpc,
            result matches Ok(request) ==> self.asks(time, snapshot, mcp, collect, eval, request),
            result matches Err(denied) ==> denied.is_plain(
                INTERNAL_SERVER_ERROR as int,
                "mcp_ext_authz only supports gRPC protocol"@,
            ),
    {
        let (context, metadata) = match &self.0.protocol {
            Protocol::Grpc { context, metadata } => (context, metadata),
            Protocol::Http { .. } => {
                return Err(
                    McpExtAuthzDenied::plain(
                        INTERNAL_SERVER_ERROR,
                        "mcp_ext_authz only supports gRPC protocol",
                    ),
                );
            },
        };
        let headers = collect_headers(
            &self.0.include_request_headers,
            &snapshot.headers,
            collect,
        );
        let (body, raw_body, body_size) = extract_body(
            &self.0.include_request_body,
            snapshot.body.as_ref(),
        );
        let path = match &snapshot.path.path_and_query {
            Some(text) => text.clone(),
            None => snapshot.path.path.clone(),
        };
        let http = HttpRequest {
            id: String::new(),
            method: snapshot.method.clone(),
            headers,
            path,
            host: match &snapshot.host {
                Some(host) => host.clone(),
                None => String::new(),
            },
            scheme: owned_or(&snapshot.scheme, "http"),
            protocol: "HTTP/1.1".to_owned(),
            query: String::new(),
            fragment: String::new(),
            size: body_size,
            body,
            raw_body,
        };
        let metadata_context = build_metadata_from_snapshot(metadata, snapshot, mcp, eval);
        let context_extensions = match context {
            Some(table) => table.duplicate(),
            None => Table::new(),
        };
        Ok(CheckRequest { time, http, metadata_context, context_extensions })
    }

    /// What the service is asked about a request that came in just now.
    pub fn check_request<
        C: Fn(&HeaderMap<HeaderValue>, &String) -> Option<String>,
        E: Fn(&Expression, &RequestSnapshot, Option<&ResourceType>) -> Evaluation,
    >(
        &self,
        snapshot: &RequestSnapshot,
        mcp: Option<&ResourceType>,
        collect: C,
        eval: E,
    ) -> (result: Result<CheckRequest, McpExtAuthzDenied>)
        requires
            forall|name: &String| call_requires(collect, (&snapshot.headers, name)),
            forall|e: &Expression| call_requires(eval, (e, snapshot, mcp)),
        ensures
            result is Ok <==> self.0.protocol is Grpc,
            result matches Ok(request) ==> self.asks(
                request.time,
                snapshot,
                mcp,
                collect,
                eval,
                request,
            ) && shown_by_the_clock(request.time) && 0 <= request.time.nanos < 1_000_000_000,
            result matches Err(denied) ==> denied.is_plain(
                INTERNAL_SERVER_ERROR as int,
                "mcp_ext_authz only supports gRPC protocol"@,
            ),
    {
        self.check_request_at(now(), snapshot, mcp, collect, eval)
    }
}

/// Whether a map holds what `process` makes of the headers that the service
/// named; if it named none, the map is empty.
pub open spec fn processed<H, P: Fn(Vec<H>) -> HeaderMap<HeaderValue>>(
    process: P,
    named: Vec<H>,
    map: HeaderMap<HeaderValue>,
) -> bool {
    if named@.len() == 0 {
        is_empty(map)
    } else {
        call_ensures(process, (named,), map)
    }
}

/// The status of a refusal: the one that the service asks for, if it asks for
/// one that is a status code, and otherwise `403 Forbidden`.
pub open spec fn refusal_status(asked: Option<i32>) -> int {
    match asked {
        Some(code) => status_or_forbidden(low_sixteen_bits(code as int)),
        None => FORBIDDEN as int,
    }
}

/// Whether a verdict is the one that follows from the answer of the service.
pub open spec fn follows_answer<H, P: Fn(Vec<H>) -> HeaderMap<HeaderValue>>(
    process: P,
    answer: CheckResponse<H>,
    verdict: Verdict,
) -> bool {
    if answer.allows() {
        verdict matches Ok(ok) && dynamic_metadata_read(
            match answer.dynamic_metadata {
                Some(fields) => Some(fields@),
                None => None,
            },
            ok.dynamic_metadata,
        ) && match answer.http_response {
            Some(HttpResponse::OkResponse(wanted)) => {
                &&& processed(process, wanted.headers, ok.request_headers_to_add)
                &&& ok.request_headers_to_remove == wanted.headers_to_remove
                &&& processed(process, wanted.response_headers_to_add, ok.response_headers_to_add)
            },
            _ => ok.keeps_headers(),
        }
    } else {
        verdict matches Err(denied) && match answer.http_response {
            Some(HttpResponse::DeniedResponse(wanted)) => {
                &&& call_ensures(process, (wanted.headers,), denied.response_headers)
                &&& denied.status_code == refusal_status(wanted.status)
                &&& denied.body == wanted.body
            },
            _ => denied.is_plain(FORBIDDEN as int, denial_text()),
        }
    }
}

impl McpExtAuthz {
    /// Whether a verdict is the one that follows from what came back of the
    /// question: from the answer if there is one, and otherwise from the
    /// failure mode.
    pub open spec fn concludes<H, P: Fn(Vec<H>) -> HeaderMap<HeaderValue>>(
        self,
        process: P,
        reply: Result<CheckResponse<H>, String>,
        verdict: Verdict,
    ) -> bool {
        match reply {
            Ok(answer) => follows_answer(process, answer, verdict),
            Err(_) => follows_failure_mode(self.0.failure_mode, verdict),
        }
    }

    /// What follows from what came back of the question. A code other than zero
    /// refuses the request, in the words of the service if it has any; code
    /// zero, or none, lets it through with the changes that the service wants.
    /// If the service could not be asked, the failure mode decides.
    ///
    /// `process` makes a header map of the headers that the service names.
    pub fn conclude<H, P: Fn(Vec<H>) -> HeaderMap<HeaderValue>>(
        &self,
        reply: Result<CheckResponse<H>, String>,
        process: P,
    ) -> (verdict: Verdict)
        requires
            forall|named: Vec<H>| call_requires(process, (named,)),
        ensures
            self.concludes(process, reply, verdict),
    {
        let answer = match reply {
            Ok(answer) => answer,
            Err(_) => {
                return self.handle_auth_failure("authorization service unavailable");
            },
        };
        let dynamic_metadata = read_dynamic_metadata(answer.dynamic_metadata);
        let status: i32 = match answer.status {
            Some(code) => code,
            None => 0,
        };
        if status != 0 {
            if let Some(HttpResponse::DeniedResponse(denied)) = answer.http_response {
                let status_code: u16 = match denied.status {
                    Some(code) => wire_status(code),
                    None => FORBIDDEN,
                };
                return Err(
                    McpExtAuthzDenied {
                        response_headers: process(denied.headers),
                        status_code,
                        body: denied.body,
                    },
                );
            }
            return Err(McpExtAuthzDenied::plain(FORBIDDEN, "external authorization denied"));
        }
        let mut ok = McpExtAuthzOkResponse::default();
        ok.dynamic_metadata = dynamic_metadata;
        if let Some(HttpResponse::OkResponse(wanted)) = answer.http_response {
            if wanted.headers.len() > 0 {
                ok.request_headers_to_add = process(wanted.headers);
            }
            ok.request_headers_to_remove = wanted.headers_to_remove;
            if wanted.response_headers_to_add.len() > 0 {
                ok.response_headers_to_add = process(wanted.response_headers_to_add);
            }
        }
        Ok(ok)
    }

    /// Whether a verdict is the one that a check comes to. Over gRPC, the service
    /// is asked about the request, and the verdict follows from what came back.
    /// With another protocol the request is refused.
    pub open spec fn checked<
        H,
        S: FnOnce(CheckRequest) -> Result<CheckResponse<H>, String>,
        C: Fn(&HeaderMap<HeaderValue>, &String) -> Option<String>,
        E: Fn(&Expression, &RequestSnapshot, Option<&ResourceType>) -> Evaluation,
        P: Fn(Vec<H>) -> HeaderMap<HeaderValue>,
    >(
        self,
        send: S,
        snapshot: &RequestSnapshot,
        mcp: Option<&ResourceType>,
        collect: C,
        eval: E,
        process: P,
        verdict: Verdict,
    ) -> bool {
        match self.0.protocol {
            Protocol::Grpc { .. } => exists|
                request: CheckRequest,
                reply: Result<CheckResponse<H>, String>,
            |
                self.asks(request.time, snapshot, mcp, collect, eval, request)
                    && shown_by_the_clock(request.time) && 0 <= request.time.nanos
                    < 1_000_000_000 && #[trigger] call_ensures(
                    send,
                    (request,),
                    reply,
                ) && self.concludes(
                    process,
                    reply,
                    verdict,
                ),
            Protocol::Http { .. } => verdict matches Err(denied) && denied.is_plain(
                INTERNAL_SERVER_ERROR as int,
                "mcp_ext_authz only supports gRPC protocol"@,
            ),
        }
    }

    /// Checks a request: puts the question to the service with `send`, and acts
    /// on what comes back. `send` need take no request but the question about
    /// this one. With a protocol other than gRPC there is no such question, so
    /// nothing is sent, and the request is refused.
    pub fn check<
        H,
        S: FnOnce(CheckRequest) -> Result<CheckResponse<H>, String>,
        C: Fn(&HeaderMap<HeaderValue>, &String) -> Option<String>,
        E: Fn(&Expression, &RequestSnapshot, Option<&ResourceType>) -> Evaluation,
        P: Fn(Vec<H>) -> HeaderMap<HeaderValue>,
    >(
        &self,
        send: S,
        snapshot: &RequestSnapshot,
        mcp: Option<&ResourceType>,
        collect: C,
        eval: E,
        process: P,
    ) -> (verdict: Verdict)
        requires
            forall|request: CheckRequest|
                self.asks(request.time, snapshot, mcp, collect, eval, request) ==> #[trigger]
                call_requires(send, (request,)),
            forall|name: &String| call_requires(collect, (&snapshot.headers, name)),
            forall|e: &Expression| call_requires(eval, (e, snapshot, mcp)),
            forall|named: Vec<H>| call_requires(process, (named,)),
        ensures
            self.checked(send, snapshot, mcp, collect, eval, process, verdict),
    {
        match self.check_request(snapshot, mcp, collect, eval) {
            Ok(request) => {
                let reply = send(request);
                self.conclude(reply, process)
            },
            Err(denied) => Err(denied),
        }
    }
}

/// When the service cannot be asked, the failure mode alone decides: any two
/// verdicts agree on whether the request goes through, on the status, the
/// headers and the body of the refusal, and on changing nothing otherwise.
pub proof fn failure_mode_alone_decides(mode: FailureMode, a: Verdict, b: Verdict)
    requires
        follows_failure_mode(mode, a),
        follows_failure_mode(mode, b),
    ensures
        a is Ok <==> b is Ok,
        a is Err ==> a->Err_0.status_code == b->Err_0.status_code && a->Err_0.body@
            == b->Err_0.body@ && header_fields(a->Err_0.response_headers) == header_fields(
            b->Err_0.response_headers,
        ),
        a is Ok ==> a->Ok_0.keeps_headers() && b->Ok_0.keeps_headers()
            && a->Ok_0.dynamic_metadata is None && b->Ok_0.dynamic_metadata is None,
{
}

/// A request goes through exactly if the service lets it, or if the service
/// could not be asked and the failure mode is to allow.
pub proof fn through_only_if_allowed<H, P: Fn(Vec<H>) -> HeaderMap<HeaderValue>>(
    authz: McpExtAuthz,
    process: P,
    reply: Result<CheckResponse<H>, String>,
    verdict: Verdict,
)
    requires
        authz.concludes(process, reply, verdict),
    ensures
        verdict is Ok <==> match reply {
            Ok(answer) => answer.allows(),
            Err(_) => authz.0.failure_mode is Allow,
        },
{
}

/// Whatever the configuration and the service ask for, a refusal has a status
/// that HTTP knows: one of three digits.
pub proof fn refusals_have_a_status<H, P: Fn(Vec<H>) -> HeaderMap<HeaderValue>>(
    authz: McpExtAuthz,
    process: P,
    reply: Result<CheckResponse<H>, String>,
    verdict: Verdict,
)
    requires
        authz.concludes(process, reply, verdict),
    ensures
        verdict matches Err(denied) ==> is_status(denied.status_code as int),
{
}

/// When the service never answers, a check over gRPC comes to what the failure
/// mode says, whatever the request.
pub proof fn unreachable_service_leaves_it_to_the_failure_mode<
    H,
    S: FnOnce(CheckRequest) -> Result<CheckResponse<H>, String>,
    C: Fn(&HeaderMap<HeaderValue>, &String) -> Option<String>,
    E: Fn(&Expression, &RequestSnapshot, Option<&ResourceType>) -> Evaluation,
    P: Fn(Vec<H>) -> HeaderMap<HeaderValue>,
>(
    authz: McpExtAuthz,
    send: S,
    snapshot: &RequestSnapshot,
    mcp: Option<&ResourceType>,
    collect: C,
    eval: E,
    process: P,
    verdict: Verdict,
)
    requires
        authz.0.protocol is Grpc,
        authz.checked(send, snapshot, mcp, collect, eval, process, verdict),
        forall|request: CheckRequest, reply: Result<CheckResponse<H>, String>| #[trigger]
            call_ensures(send, (request,), reply) ==> reply is Err,
    ensures
        follows_failure_mode(authz.0.failure_mode, verdict),
{
}

/// Without gRPC there is nothing to ask, so nothing that a check may send, and
/// the request is refused with `500 Internal Server Error` under any failure mode.
pub proof fn only_grpc_is_asked<
    H,
    S: FnOnce(CheckRequest) -> Result<CheckResponse<H>, String>,
    C: Fn(&HeaderMap<HeaderValue>, &String) -> Option<String>,
    E: Fn(&Expression, &RequestSnapshot, Option<&ResourceType>) -> Evaluation,
    P: Fn(Vec<H>) -> HeaderMap<HeaderValue>,
>(
    authz: McpExtAuthz,
    send: S,
    snapshot: &RequestSnapshot,
    mcp: Option<&ResourceType>,
    collect: C,
    eval: E,
    process: P,
    verdict: Verdict,
)
    requires
        authz.0.protocol !is Grpc,
        authz.checked(send, snapshot, mcp, collect, eval, process, verdict),
    ensures
        forall|time: Timestamp, request: CheckRequest|
            !(#[trigger] authz.asks(time, snapshot, mcp, collect, eval, request)),
        verdict matches Err(denied) && denied.status_code == INTERNAL_SERVER_ERROR,
{
}

/// Over gRPC, a request goes through if whatever can come back of a question lets
/// it: an answer that allows it or, under the failure mode that allows, none.
/// What else the answer holds plays no part.
pub proof fn allowing_service_lets_all_through<
    H,
    S: FnOnce(CheckRequest) -> Result<CheckResponse<H>, String>,
    C: Fn(&HeaderMap<HeaderValue>, &String) -> Option<String>,
    E: Fn(&Expression, &RequestSnapshot, Option<&ResourceType>) -> Evaluation,
    P: Fn(Vec<H>) -> HeaderMap<HeaderValue>,
>(
    authz: McpExtAuthz,
    send: S,
    snapshot: &RequestSnapshot,
    mcp: Option<&ResourceType>,
    collect: C,
    eval: E,
    process: P,
    verdict: Verdict,
)
    requires
        authz.0.protocol is Grpc,
        authz.checked(send, snapshot, mcp, collect, eval, process, verdict),
        forall|request: CheckRequest, reply: Result<CheckResponse<H>, String>| #[trigger]
            call_ensures(send, (request,), reply) ==> match reply {
                Ok(answer) => answer.allows(),
                Err(_) => authz.0.failure_mode is Allow,
            },
    ensures
        verdict is Ok,
{
}

/// A service that refuses every question has every request refused, under any
/// configuration.
pub proof fn refusing_service_refuses_all<
    H,
    S: FnOnce(CheckRequest) -> Result<CheckResponse<H>, String>,
    C: Fn(&HeaderMap<HeaderValue>, &String) -> Option<String>,
    E: Fn(&Expression, &RequestSnapshot, Option<&ResourceType>) -> Evaluation,
    P: Fn(Vec<H>) -> HeaderMap<HeaderValue>,
>(
    authz: McpExtAuthz,
    send: S,
    snapshot: &RequestSnapshot,
    mcp: Option<&ResourceType>,
    collect: C,
    eval: E,
    process: P,
    verdict: Verdict,
)
    requires
        authz.checked(send, snapshot, mcp, collect, eval, process, verdict),
        forall|request: CheckRequest, reply: Result<CheckResponse<H>, String>| #[trigger]
            call_ensures(send, (request,), reply) ==> (reply matches Ok(answer)
                && !answer.allows()),
    ensures
        verdict is Err,
{
}

} // verus!
