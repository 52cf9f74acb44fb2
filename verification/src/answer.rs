//! What the caller of a refused request is answered.

use http::HeaderMap;
use http::HeaderValue;
use vstd::prelude::*;
use vstd::string::StringExecFns;

use crate::config::FailureMode;
use crate::ext_authz::denial_text;
use crate::ext_authz::refusals_have_a_status;
use crate::ext_authz::McpExtAuthz;
use crate::ext_authz::McpExtAuthzDenied;
use crate::json::lemma_object_tree;
use crate::json::members;
use crate::json::Field;
use crate::json::Json;
use crate::json::JsonView;
use crate::resource::ResourceType;
use crate::service::CheckResponse;
use crate::status::is_status;
use crate::status::status_or_forbidden;
use crate::status::FORBIDDEN;
use crate::text::decimal;
use crate::text::decimal_text;
use crate::text::decimal_tells_numbers_apart;

verus! {

/// The JSON-RPC code for parameters that make no sense.
pub const INVALID_PARAMS: i32 = -32602;

/// The JSON-RPC code for an error on the inside.
pub const INTERNAL_ERROR: i32 = -32603;

/// The code for a resource that does not exist.
pub const RESOURCE_NOT_FOUND: i32 = -32002;

/// A JSON-RPC error.
#[derive(Debug, PartialEq)]
pub struct RpcError {
    pub code: i32,
    pub message: String,
    pub data: Option<Json>,
}

impl ResourceType {
    /// The error for something that the caller is not allowed to use. It is the
    /// same as for something that does not exist.
    pub fn denied_error(&self) -> (error: RpcError)
        ensures
            error.code == INVALID_PARAMS,
            error.message@ == "Unknown "@ + self.kind() + ": "@ + self.id().name@,
            error.data is None,
    {
        let (kind, id) = self.parts();
        let mut message = "Unknown ".to_owned();
        message.append(kind);
        message.append(": ");
        message.append(id.name.as_str());
        RpcError { code: INVALID_PARAMS, message, data: None }
    }
}

/// The identifier of a JSON-RPC request.
#[derive(Debug, PartialEq)]
pub enum RequestId {
    Number(i64),
    Text(String),
}

impl RequestId {
    /// The identifier as JSON.
    pub open spec fn json(self) -> JsonView {
        match self {
            RequestId::Number(n) => JsonView::Number(decimal(n as int)),
            RequestId::Text(text) => JsonView::Text(text@),
        }
    }
}

/// A refusal of the request with a given identifier.
#[derive(Debug)]
pub struct ExtAuthzDeniedInfo {
    pub req_id: RequestId,
    pub response_headers: HeaderMap<HeaderValue>,
    pub status_code: u16,
    pub body: String,
}

/// The HTTP response to a refused request.
#[derive(Debug)]
pub struct DeniedAnswer {
    pub status: u16,
    pub headers: HeaderMap<HeaderValue>,
    /// The value of the `content-type` header, which goes out with the others.
    pub content_type: String,
    pub body: Json,
}

/// The JSON-RPC message that tells an error.
pub open spec fn error_message(id: JsonView, code: int, message: Seq<char>) -> JsonView {
    JsonView::Object(
        seq![
            ("jsonrpc"@, JsonView::Text("2.0"@)),
            ("id"@, id),
            (
                "error"@,
                JsonView::Object(
                    seq![
                        ("code"@, JsonView::Number(decimal(code))),
                        ("message"@, JsonView::Text(message)),
                    ],
                ),
            ),
        ],
    )
}

impl ExtAuthzDeniedInfo {
    /// Whether this is the given refusal of the request with the given identifier.
    pub open spec fn refuses(self, req_id: RequestId, denied: McpExtAuthzDenied) -> bool {
        &&& self.req_id == req_id
        &&& self.response_headers == denied.response_headers
        &&& self.status_code == denied.status_code
        &&& self.body == denied.body
    }

    /// Whether this refusal is answered with the given response.
    pub open spec fn answered_with(self, answer: DeniedAnswer) -> bool {
        &&& answer.status == self.status_code
        &&& answer.headers == self.response_headers
        &&& answer.content_type@ == "application/json"@
        &&& answer.body@ == error_message(self.req_id.json(), INTERNAL_ERROR as int, self.body@)
    }

    /// The refusal of the request with the given identifier.
    pub fn new(req_id: RequestId, denied: McpExtAuthzDenied) -> (info: ExtAuthzDeniedInfo)
        ensures
            info.refuses(req_id, denied),
    {
        ExtAuthzDeniedInfo {
            req_id,
            response_headers: denied.response_headers,
            status_code: denied.status_code,
            body: denied.body,
        }
    }

    /// The response to the refused request: the status and the headers of the
    /// refusal, and a JSON-RPC error that tells its body.
    pub fn into_response(self) -> (answer: DeniedAnswer)
        ensures
            self.answered_with(answer),
    {
        let id = match self.req_id {
            RequestId::Number(n) => Json::Number(decimal_text(n)),
            RequestId::Text(text) => Json::Text(text),
        };
        let ghost whole = error_message(self.req_id.json(), INTERNAL_ERROR as int, self.body@);
        let mut error: Vec<Field> = Vec::new();
        error.push(
            Field {
                key: "code".to_owned(),
                value: Json::Number(decimal_text(INTERNAL_ERROR as i64)),
            },
        );
        error.push(Field { key: "message".to_owned(), value: Json::Text(self.body) });
        proof {
            lemma_object_tree(error);
            assert(members(error@) =~= whole->Object_0[2].1->Object_0);
        }
        let mut message: Vec<Field> = Vec::new();
        message.push(Field { key: "jsonrpc".to_owned(), value: Json::Text("2.0".to_owned()) });
        message.push(Field { key: "id".to_owned(), value: id });
        message.push(Field { key: "error".to_owned(), value: Json::Object(error) });
        proof {
            lemma_object_tree(message);
            assert(members(message@) =~= whole->Object_0);
        }
        DeniedAnswer {
            status: self.status_code,
            headers: self.response_headers,
            content_type: "application/json".to_owned(),
            body: Json::Object(message),
        }
    }
}

/// Refusals of different things of one kind read differently, so the caller
/// learns which was refused.
pub proof fn denied_errors_name_the_resource(a: ResourceType, b: ResourceType)
    requires
        a.kind() == b.kind(),
        "Unknown "@ + a.kind() + ": "@ + a.id().name@ == "Unknown "@ + b.kind() + ": "@
            + b.id().name@,
    ensures
        a.id().name@ == b.id().name@,
{
    let head = "Unknown "@ + a.kind() + ": "@;
    let whole = head + a.id().name@;
    assert(a.id().name@ =~= whole.skip(head.len() as int));
    assert(b.id().name@ =~= whole.skip(head.len() as int));
}

/// The caller of a refused request is answered with the status, the headers and
/// the body of the refusal, and with a status that HTTP knows. If the service
/// could not be asked, that is the status that the failure mode asks for.
pub proof fn refused_callers_are_told<H, P: Fn(Vec<H>) -> HeaderMap<HeaderValue>>(
    authz: McpExtAuthz,
    process: P,
    reply: Result<CheckResponse<H>, String>,
    denied: McpExtAuthzDenied,
    req_id: RequestId,
    info: ExtAuthzDeniedInfo,
    answer: DeniedAnswer,
)
    requires
        authz.concludes(process, reply, Err(denied)),
        info.refuses(req_id, denied),
        info.answered_with(answer),
    ensures
        is_status(answer.status as int),
        answer.status == denied.status_code,
        answer.headers == denied.response_headers,
        answer.body@ == error_message(req_id.json(), INTERNAL_ERROR as int, denied.body@),
        reply is Err ==> answer.body@ == error_message(
            req_id.json(),
            INTERNAL_ERROR as int,
            denial_text(),
        ) && match authz.0.failure_mode {
            FailureMode::Allow => false,
            FailureMode::Deny => answer.status == FORBIDDEN,
            FailureMode::DenyWithStatus(code) => answer.status == status_or_forbidden(code as int),
        },
{
    refusals_have_a_status(authz, process, reply, Err(denied));
}

/// Answers to different requests differ, and so do answers that tell different
/// things: the caller can read off which request was refused, and why.
pub proof fn answers_tell_requests_apart(
    a: ExtAuthzDeniedInfo,
    b: ExtAuthzDeniedInfo,
    answer_a: DeniedAnswer,
    answer_b: DeniedAnswer,
)
    requires
        a.answered_with(answer_a),
        b.answered_with(answer_b),
        answer_a.body@ == answer_b.body@,
    ensures
        a.body@ == b.body@,
        match (a.req_id, b.req_id) {
            (RequestId::Number(m), RequestId::Number(n)) => m == n,
            (RequestId::Text(s), RequestId::Text(t)) => s@ == t@,
            _ => false,
        },
{
    let whole_a = answer_a.body@->Object_0;
    let whole_b = answer_b.body@->Object_0;
    assert(whole_a[1] == whole_b[1]);
    assert(whole_a[1].1 == a.req_id.json() && whole_b[1].1 == b.req_id.json());
    assert(whole_a[2].1->Object_0[1] == whole_b[2].1->Object_0[1]);
    if let (RequestId::Number(m), RequestId::Number(n)) = (a.req_id, b.req_id) {
        decimal_tells_numbers_apart(m as int, n as int);
    }
}

} // verus!
