//! Laws on what the service is asked.

use http::HeaderMap;
use http::HeaderValue;
use vstd::prelude::*;
use vstd::utf8::decode_utf8;
use vstd::utf8::valid_utf8;

use crate::body::bytes_held;
use crate::body::extract_body;
use crate::body::utf8_lossy;
use crate::body::BodyOptions;
use crate::body::BufferedBody;
use crate::config::Expression;
use crate::config::Protocol;
use crate::ext_authz::McpExtAuthz;
use crate::ext_authz::McpExtAuthzDenied;
use crate::ext_authz::Verdict;
use crate::headers::collect_headers;
use crate::headers::collected;
use crate::headers::header_fields;
use crate::headers::headers_with_a_text_are_shown;
use crate::headers::no_other_header_is_shown;
use crate::headers::to_show;
use crate::headers::HeaderOrPseudo;
use crate::json::lemma_object_tree;
use crate::json::members;
use crate::json::Json;
use crate::json::JsonView;
use crate::metadata::build_metadata_from_snapshot;
use crate::metadata::evaluated_metadata;
use crate::metadata::expressions_with_object_values_are_sent;
use crate::metadata::metadata_built;
use crate::metadata::standard_names_differ;
use crate::metadata::Evaluation;
use crate::metadata::Metadata;
use crate::resource::ResourceType;
use crate::service::shown_by_the_clock;
use crate::service::CheckRequest;
use crate::service::CheckResponse;
use crate::service::Timestamp;
use crate::snapshot::RequestSnapshot;
use crate::table::Table;

verus! {

/// There is a question exactly over gRPC. With another protocol the request is
/// refused with a 500 that says so.
pub proof fn questions_are_made_over_grpc<
    C: Fn(&HeaderMap<HeaderValue>, &String) -> Option<String>,
    E: Fn(&Expression, &RequestSnapshot, Option<&ResourceType>) -> Evaluation,
>(
    authz: McpExtAuthz,
    time: Timestamp,
    snapshot: &RequestSnapshot,
    mcp: Option<&ResourceType>,
    collect: C,
    eval: E,
    result: Result<CheckRequest, McpExtAuthzDenied>,
)
    requires
        call_ensures(
            McpExtAuthz::check_request_at::<C, E>,
            (&authz, time, snapshot, mcp, collect, eval),
            result,
        ),
    ensures
        match authz.0.protocol {
            Protocol::Grpc { .. } => result matches Ok(request) && authz.asks(
                time,
                snapshot,
                mcp,
                collect,
                eval,
                request,
            ),
            Protocol::Http { .. } => result matches Err(denied) && denied.status_code == 500
                && denied.body@ == "mcp_ext_authz only supports gRPC protocol"@ && header_fields(
                denied.response_headers,
            ) == Map::<Seq<char>, Seq<Seq<u8>>>::empty(),
        },
{
}

/// The question about a request that came in just now is the question about
/// one that came in at the time that it tells, and that is what the clock showed.
pub proof fn questions_are_made_just_now<
    C: Fn(&HeaderMap<HeaderValue>, &String) -> Option<String>,
    E: Fn(&Expression, &RequestSnapshot, Option<&ResourceType>) -> Evaluation,
>(
    authz: McpExtAuthz,
    snapshot: &RequestSnapshot,
    mcp: Option<&ResourceType>,
    collect: C,
    eval: E,
    result: Result<CheckRequest, McpExtAuthzDenied>,
)
    requires
        call_ensures(
            McpExtAuthz::check_request::<C, E>,
            (&authz, snapshot, mcp, collect, eval),
            result,
        ),
    ensures
        match authz.0.protocol {
            Protocol::Grpc { .. } => result matches Ok(request) && authz.asks(
                request.time,
                snapshot,
                mcp,
                collect,
                eval,
                request,
            ) && shown_by_the_clock(request.time) && 0 <= request.time.nanos < 1_000_000_000,
            Protocol::Http { .. } => result matches Err(denied) && denied.status_code == 500
                && denied.body@ == "mcp_ext_authz only supports gRPC protocol"@ && header_fields(
                denied.response_headers,
            ) == Map::<Seq<char>, Seq<Seq<u8>>>::empty(),
        },
{
}

/// The question tells when the request came in, its method, path, host and
/// scheme, and the fixed entries of the configuration.
pub proof fn requests_are_described_as_they_came_in<
    C: Fn(&HeaderMap<HeaderValue>, &String) -> Option<String>,
    E: Fn(&Expression, &RequestSnapshot, Option<&ResourceType>) -> Evaluation,
>(
    authz: McpExtAuthz,
    time: Timestamp,
    snapshot: &RequestSnapshot,
    mcp: Option<&ResourceType>,
    collect: C,
    eval: E,
    request: CheckRequest,
)
    requires
        authz.asks(time, snapshot, mcp, collect, eval, request),
    ensures
        request.time == time,
        request.http.method@ == snapshot.method@,
        snapshot.path.path_and_query matches Some(text) ==> request.http.path@ == text@,
        snapshot.path.path_and_query is None ==> request.http.path@ == snapshot.path.path@,
        snapshot.host matches Some(host) ==> request.http.host@ == host@,
        snapshot.host is None ==> request.http.host@.len() == 0,
        snapshot.scheme matches Some(scheme) ==> request.http.scheme@ == scheme@,
        snapshot.scheme is None ==> request.http.scheme@ == "http"@,
        request.http.protocol@ == "HTTP/1.1"@,
        request.http.id@.len() == 0,
        request.http.query@.len() == 0,
        request.http.fragment@.len() == 0,
        authz.0.protocol matches Protocol::Grpc { context: Some(table), .. }
            ==> request.context_extensions@ == table@,
        authz.0.protocol matches Protocol::Grpc { context: None, .. }
            ==> request.context_extensions@ == Map::<Seq<char>, String>::empty(),
{
}

/// Requests that differ in their method, path, host or scheme are never
/// described alike, whatever the configuration.
pub proof fn descriptions_tell_requests_apart<
    C: Fn(&HeaderMap<HeaderValue>, &String) -> Option<String>,
    E: Fn(&Expression, &RequestSnapshot, Option<&ResourceType>) -> Evaluation,
>(
    authz_a: McpExtAuthz,
    authz_b: McpExtAuthz,
    time_a: Timestamp,
    time_b: Timestamp,
    a: &RequestSnapshot,
    b: &RequestSnapshot,
    mcp_a: Option<&ResourceType>,
    mcp_b: Option<&ResourceType>,
    collect: C,
    eval: E,
    request_a: CheckRequest,
    request_b: CheckRequest,
)
    requires
        authz_a.asks(time_a, a, mcp_a, collect, eval, request_a),
        authz_b.asks(time_b, b, mcp_b, collect, eval, request_b),
    ensures
        request_a.http.method@ == request_b.http.method@ <==> a.method@ == b.method@,
        a.path.path_and_query is Some && b.path.path_and_query is Some ==> (
        request_a.http.path@ == request_b.http.path@ <==> a.path.path_and_query->0@
            == b.path.path_and_query->0@),
        a.host is Some && b.host is Some ==> (request_a.http.host@ == request_b.http.host@
            <==> a.host->0@ == b.host->0@),
        a.scheme is Some && b.scheme is Some ==> (request_a.http.scheme@ == request_b.http.scheme@
            <==> a.scheme->0@ == b.scheme->0@),
        request_a.time == request_b.time <==> time_a == time_b,
{
}

/// A body is sent as configured: in one form, as much of its beginning as may
/// be, with its full length. Without options or without a body nothing is sent.
pub proof fn bodies_are_sent_as_configured<
    C: Fn(&HeaderMap<HeaderValue>, &String) -> Option<String>,
    E: Fn(&Expression, &RequestSnapshot, Option<&ResourceType>) -> Evaluation,
>(
    authz: McpExtAuthz,
    time: Timestamp,
    snapshot: &RequestSnapshot,
    mcp: Option<&ResourceType>,
    collect: C,
    eval: E,
    request: CheckRequest,
)
    requires
        authz.asks(time, snapshot, mcp, collect, eval, request),
    ensures
        (authz.0.include_request_body is None || snapshot.body is None) ==> request.http.body@.len()
            == 0 && request.http.raw_body@.len() == 0 && request.http.size == 0,
        (authz.0.include_request_body is Some && snapshot.body is Some) ==> {
            let opts = authz.0.include_request_body->0;
            let held = bytes_held((snapshot.body->0).0);
            let sent = if held.len() <= opts.max_request_bytes {
                held
            } else if opts.allow_partial_message {
                held.subrange(0, opts.max_request_bytes as int)
            } else {
                Seq::empty()
            };
            &&& request.http.size == held.len()
            &&& opts.pack_as_bytes ==> request.http.raw_body@ == sent && request.http.body@.len()
                == 0
            &&& !opts.pack_as_bytes ==> request.http.raw_body@.len() == 0 && request.http.body@
                == utf8_lossy(sent) && (valid_utf8(sent) ==> request.http.body@ == decode_utf8(
                sent,
            ))
        },
{
    if authz.0.include_request_body is Some && snapshot.body is Some {
        let opts = authz.0.include_request_body->0;
        let held = bytes_held((snapshot.body->0).0);
        if held.len() > opts.max_request_bytes {
            assert(held.take(opts.max_request_bytes as int) =~= held.subrange(
                0,
                opts.max_request_bytes as int,
            ));
        }
    }
}

/// The same of the body that is made ready to send.
pub proof fn extracted_bodies_are_as_configured(
    body_opts: Option<BodyOptions>,
    buffered: Option<&BufferedBody>,
    result: (String, Vec<u8>, i64),
)
    requires
        call_ensures(extract_body, (&body_opts, buffered), result),
    ensures
        (body_opts is None || buffered is None) ==> result.0@.len() == 0 && result.1@.len() == 0
            && result.2 == 0,
        (body_opts is Some && buffered is Some) ==> {
            let opts = body_opts->0;
            let held = bytes_held((buffered->0).0);
            let sent = if held.len() <= opts.max_request_bytes {
                held
            } else if opts.allow_partial_message {
                held.subrange(0, opts.max_request_bytes as int)
            } else {
                Seq::empty()
            };
            &&& result.2 == held.len()
            &&& opts.pack_as_bytes ==> result.1@ == sent && result.0@.len() == 0
            &&& !opts.pack_as_bytes ==> result.1@.len() == 0 && result.0@ == utf8_lossy(sent) && (
            valid_utf8(sent) ==> result.0@ == decode_utf8(sent))
        },
{
    if body_opts is Some && buffered is Some {
        let opts = body_opts->0;
        let held = bytes_held((buffered->0).0);
        if held.len() > opts.max_request_bytes {
            assert(held.take(opts.max_request_bytes as int) =~= held.subrange(
                0,
                opts.max_request_bytes as int,
            ));
        }
    }
}

/// A header that is shown is one that the configuration lists by that name or,
/// where it lists nothing, one that the request has; and the text shown is one
/// that `collect` made of the request's headers under that name.
pub proof fn shown_headers_are_those_of_the_request<
    C: Fn(&HeaderMap<HeaderValue>, &String) -> Option<String>,
    E: Fn(&Expression, &RequestSnapshot, Option<&ResourceType>) -> Evaluation,
>(
    authz: McpExtAuthz,
    time: Timestamp,
    snapshot: &RequestSnapshot,
    mcp: Option<&ResourceType>,
    collect: C,
    eval: E,
    request: CheckRequest,
    name: Seq<char>,
)
    requires
        authz.asks(time, snapshot, mcp, collect, eval, request),
        request.http.headers@.contains_key(name),
    ensures
        authz.0.include_request_headers@.len() == 0 ==> header_fields(
            snapshot.headers,
        ).contains_key(name),
        authz.0.include_request_headers@.len() > 0 ==> exists|text: String|
            text@ == name && #[trigger] authz.0.include_request_headers@.contains(
                HeaderOrPseudo::Header(text),
            ),
        exists|key: &String|
            key@ == name && #[trigger] call_ensures(
                collect,
                (&snapshot.headers, key),
                Some(request.http.headers@[name]),
            ),
{
    no_other_header_is_shown(
        collect,
        authz.0.include_request_headers@,
        snapshot.headers,
        request.http.headers@,
        name,
    );
}

/// Where the configuration lists no header, every header of the request that
/// `collect` makes a text of is shown, whatever its name.
pub proof fn all_headers_are_shown_by_default<
    C: Fn(&HeaderMap<HeaderValue>, &String) -> Option<String>,
    E: Fn(&Expression, &RequestSnapshot, Option<&ResourceType>) -> Evaluation,
>(
    authz: McpExtAuthz,
    time: Timestamp,
    snapshot: &RequestSnapshot,
    mcp: Option<&ResourceType>,
    collect: C,
    eval: E,
    request: CheckRequest,
    name: Seq<char>,
)
    requires
        authz.asks(time, snapshot, mcp, collect, eval, request),
        authz.0.include_request_headers@.len() == 0,
        header_fields(snapshot.headers).contains_key(name),
        forall|key: &String, found: Option<String>| #[trigger]
            call_ensures(collect, (&snapshot.headers, key), found) && key@ == name ==> found
                is Some,
    ensures
        request.http.headers@.contains_key(name),
{
    headers_with_a_text_are_shown(
        collect,
        authz.0.include_request_headers@,
        snapshot.headers,
        request.http.headers@,
        name,
    );
}

/// Every header that the configuration lists by name and that `collect` makes a
/// text of is shown.
pub proof fn all_listed_headers_are_shown<
    C: Fn(&HeaderMap<HeaderValue>, &String) -> Option<String>,
    E: Fn(&Expression, &RequestSnapshot, Option<&ResourceType>) -> Evaluation,
>(
    authz: McpExtAuthz,
    time: Timestamp,
    snapshot: &RequestSnapshot,
    mcp: Option<&ResourceType>,
    collect: C,
    eval: E,
    request: CheckRequest,
    i: int,
    name: String,
)
    requires
        authz.asks(time, snapshot, mcp, collect, eval, request),
        0 <= i < authz.0.include_request_headers@.len(),
        authz.0.include_request_headers@[i] == HeaderOrPseudo::Header(name),
        forall|key: &String, found: Option<String>| #[trigger]
            call_ensures(collect, (&snapshot.headers, key), found) && key@ == name@ ==> found
                is Some,
    ensures
        request.http.headers@.contains_key(name@),
{
    assert(authz.0.include_request_headers@.contains(HeaderOrPseudo::Header(name)));
    assert(to_show(authz.0.include_request_headers@, snapshot.headers, name@));
    headers_with_a_text_are_shown(
        collect,
        authz.0.include_request_headers@,
        snapshot.headers,
        request.http.headers@,
        name@,
    );
}

/// The headers that are gathered are those that the question tells.
pub proof fn gathered_headers_are_those_to_tell<
    C: Fn(&HeaderMap<HeaderValue>, &String) -> Option<String>,
>(
    listed: Vec<HeaderOrPseudo>,
    headers: HeaderMap<HeaderValue>,
    collect: C,
    table: Table<String>,
    name: Seq<char>,
)
    requires
        call_ensures(collect_headers::<C>, (&listed, &headers, collect), table),
    ensures
        collected(collect, listed@, headers, table@),
        table@.contains_key(name) && listed@.len() == 0 ==> header_fields(headers).contains_key(
            name,
        ),
        table@.contains_key(name) && listed@.len() > 0 ==> exists|text: String|
            text@ == name && #[trigger] listed@.contains(HeaderOrPseudo::Header(text)),
        table@.contains_key(name) ==> exists|key: &String|
            key@ == name && #[trigger] call_ensures(
                collect,
                (&headers, key),
                Some(table@[name]),
            ),
{
    if table@.contains_key(name) {
        no_other_header_is_shown(collect, listed@, headers, table@, name);
    }
}

/// Without expressions configured, there is metadata exactly if there is a token
/// or a thing asked for. It tells the claims of the token and the thing, each
/// under its own name, and nothing else.
pub proof fn claims_and_resource_are_told<
    C: Fn(&HeaderMap<HeaderValue>, &String) -> Option<String>,
    E: Fn(&Expression, &RequestSnapshot, Option<&ResourceType>) -> Evaluation,
>(
    authz: McpExtAuthz,
    time: Timestamp,
    snapshot: &RequestSnapshot,
    mcp: Option<&ResourceType>,
    collect: C,
    eval: E,
    request: CheckRequest,
)
    requires
        authz.asks(time, snapshot, mcp, collect, eval, request),
        authz.0.protocol matches Protocol::Grpc { metadata, .. } && metadata is None,
    ensures
        request.metadata_context is Some <==> snapshot.jwt is Some || mcp is Some,
        request.metadata_context matches Some(sent) ==> {
            let told = sent.filter_metadata@;
            &&& told.contains_key("envoy.filters.http.jwt_authn"@) <==> snapshot.jwt is Some
            &&& told.contains_key("agentgateway.filters.mcp"@) <==> mcp is Some
            &&& forall|name: Seq<char>| #[trigger]
                told.contains_key(name) ==> name == "envoy.filters.http.jwt_authn"@ || name
                    == "agentgateway.filters.mcp"@
        },
        snapshot.jwt matches Some(claims) ==> {
            let fields =
                request.metadata_context->0.filter_metadata@["envoy.filters.http.jwt_authn"@].fields@;
            &&& fields.len() == 1
            &&& fields[0].key@ == "jwt_payload"@
            &&& fields[0].value matches Json::Object(inner) && inner@.len() == claims.inner@.len()
                && forall|i: int|
                0 <= i < claims.inner@.len() ==> (#[trigger] inner@[i]).key@
                    == claims.inner@[i].key@ && inner@[i].value@ == claims.inner@[i].value@
        },
        mcp matches Some(resource) ==> {
            let fields =
                request.metadata_context->0.filter_metadata@["agentgateway.filters.mcp"@].fields@;
            let (word, id) = match *resource {
                ResourceType::Tool(id) => ("tool"@, id),
                ResourceType::Prompt(id) => ("prompt"@, id),
                ResourceType::Resource(id) => ("resource"@, id),
            };
            &&& fields.len() == 1
            &&& fields[0].key@ == word
            &&& fields[0].value@ == JsonView::Object(
                seq![
                    ("target"@, JsonView::Text(id.target@)),
                    ("name"@, JsonView::Text(id.name@)),
                ],
            )
        },
{
    standard_metadata_is_told(eval, None, snapshot, mcp, request.metadata_context);
}

/// The same of metadata that is built.
pub proof fn standard_metadata_is_told<
    E: Fn(&Expression, &RequestSnapshot, Option<&ResourceType>) -> Evaluation,
>(
    eval: E,
    expressions: Option<Table<Expression>>,
    snapshot: &RequestSnapshot,
    mcp: Option<&ResourceType>,
    metadata: Option<Metadata>,
)
    requires
        metadata_built(eval, expressions, snapshot, mcp, metadata),
        expressions is None,
    ensures
        metadata is Some <==> snapshot.jwt is Some || mcp is Some,
        metadata matches Some(sent) ==> {
            let told = sent.filter_metadata@;
            &&& told.contains_key("envoy.filters.http.jwt_authn"@) <==> snapshot.jwt is Some
            &&& told.contains_key("agentgateway.filters.mcp"@) <==> mcp is Some
            &&& forall|name: Seq<char>| #[trigger]
                told.contains_key(name) ==> name == "envoy.filters.http.jwt_authn"@ || name
                    == "agentgateway.filters.mcp"@
        },
        snapshot.jwt matches Some(claims) ==> {
            let fields = metadata->0.filter_metadata@["envoy.filters.http.jwt_authn"@].fields@;
            &&& fields.len() == 1
            &&& fields[0].key@ == "jwt_payload"@
            &&& fields[0].value matches Json::Object(inner) && inner@.len() == claims.inner@.len()
                && forall|i: int|
                0 <= i < claims.inner@.len() ==> (#[trigger] inner@[i]).key@
                    == claims.inner@[i].key@ && inner@[i].value@ == claims.inner@[i].value@
        },
        mcp matches Some(resource) ==> {
            let fields = metadata->0.filter_metadata@["agentgateway.filters.mcp"@].fields@;
            let (word, id) = match *resource {
                ResourceType::Tool(id) => ("tool"@, id),
                ResourceType::Prompt(id) => ("prompt"@, id),
                ResourceType::Resource(id) => ("resource"@, id),
            };
            &&& fields.len() == 1
            &&& fields[0].key@ == word
            &&& fields[0].value@ == JsonView::Object(
                seq![
                    ("target"@, JsonView::Text(id.target@)),
                    ("name"@, JsonView::Text(id.name@)),
                ],
            )
        },
{
    standard_names_differ();
    if metadata is Some {
        let sent = metadata->0;
        let told = sent.filter_metadata@;
        assert(sent@.dom() =~= told.dom());
        if let Some(claims) = snapshot.jwt {
            let name = "envoy.filters.http.jwt_authn"@;
            assert(sent@.contains_key(name));
            let fields = told[name].fields@;
            assert(sent@[name] == members(fields));
            assert(members(fields).len() == 1);
            assert(members(fields)[0] == (fields[0].key@, fields[0].value@));
            if let Json::Object(inner) = fields[0].value {
                lemma_object_tree(inner);
                assert(members(inner@) == members(claims.inner@));
                assert(members(inner@).len() == members(claims.inner@).len());
                assert forall|i: int| 0 <= i < claims.inner@.len() implies (#[trigger]
                inner@[i]).key@ == claims.inner@[i].key@ && inner@[i].value@
                    == claims.inner@[i].value@ by {
                    assert(members(inner@)[i] == members(claims.inner@)[i]);
                }
            }
        }
        if let Some(resource) = mcp {
            let name = "agentgateway.filters.mcp"@;
            assert(sent@.contains_key(name));
            let fields = told[name].fields@;
            assert(sent@[name] == members(fields));
            assert(members(fields).len() == 1);
            assert(members(fields)[0] == (fields[0].key@, fields[0].value@));
        }
    }
}

/// With expressions configured, there is metadata, and each entry of it is the
/// value of the expression of its name, an object, evaluated with the request
/// and the thing asked for.
pub proof fn told_values_are_those_of_the_expressions<
    C: Fn(&HeaderMap<HeaderValue>, &String) -> Option<String>,
    E: Fn(&Expression, &RequestSnapshot, Option<&ResourceType>) -> Evaluation,
>(
    authz: McpExtAuthz,
    time: Timestamp,
    snapshot: &RequestSnapshot,
    mcp: Option<&ResourceType>,
    collect: C,
    eval: E,
    request: CheckRequest,
    table: Table<Expression>,
    name: Seq<char>,
)
    requires
        authz.asks(time, snapshot, mcp, collect, eval, request),
        authz.0.protocol matches Protocol::Grpc { metadata, .. } && metadata == Some(table),
        forall|i: int, j: int|
            0 <= i < j < table.listed().len() ==> (#[trigger] table.listed()[i]).0@ != (
            #[trigger] table.listed()[j]).0@,
    ensures
        request.metadata_context is Some,
        request.metadata_context->0.filter_metadata@.contains_key(name) ==> exists|
            i: int,
            value: Json,
        |
            0 <= i < table.listed().len() && table.listed()[i].0@ == name && #[trigger]
                call_ensures(
                    eval,
                    (&table.listed()[i].1, snapshot, mcp),
                    Evaluation::Value(value),
                ) && value@ is Object && told_as(
                    request.metadata_context->0.filter_metadata@[name].fields@,
                    value,
                ),
{
    evaluated_entries_are_told(eval, table, snapshot, mcp, request.metadata_context, name, 0);
}

/// Every expression that can only have an object as its value is told.
pub proof fn expressions_with_objects_are_told<
    C: Fn(&HeaderMap<HeaderValue>, &String) -> Option<String>,
    E: Fn(&Expression, &RequestSnapshot, Option<&ResourceType>) -> Evaluation,
>(
    authz: McpExtAuthz,
    time: Timestamp,
    snapshot: &RequestSnapshot,
    mcp: Option<&ResourceType>,
    collect: C,
    eval: E,
    request: CheckRequest,
    table: Table<Expression>,
    i: int,
)
    requires
        authz.asks(time, snapshot, mcp, collect, eval, request),
        authz.0.protocol matches Protocol::Grpc { metadata, .. } && metadata == Some(table),
        forall|i: int, j: int|
            0 <= i < j < table.listed().len() ==> (#[trigger] table.listed()[i]).0@ != (
            #[trigger] table.listed()[j]).0@,
        0 <= i < table.listed().len(),
        forall|outcome: Evaluation| #[trigger]
            call_ensures(eval, (&table.listed()[i].1, snapshot, mcp), outcome) ==> (
            outcome matches Evaluation::Value(value) && value is Object),
    ensures
        request.metadata_context is Some,
        request.metadata_context->0.filter_metadata@.contains_key(table.listed()[i].0@),
{
    evaluated_entries_are_told(
        eval,
        table,
        snapshot,
        mcp,
        request.metadata_context,
        table.listed()[i].0@,
        i,
    );
}

/// Whether fields are those of an object.
pub open spec fn told_as(fields: Seq<crate::json::Field>, value: Json) -> bool {
    value matches Json::Object(inner) && fields.len() == inner@.len() && forall|i: int|
        0 <= i < fields.len() ==> (#[trigger] fields[i]).key@ == inner@[i].key@ && fields[i].value@
            == inner@[i].value@
}

/// The same of metadata that is built.
pub proof fn evaluated_entries_are_told<
    E: Fn(&Expression, &RequestSnapshot, Option<&ResourceType>) -> Evaluation,
>(
    eval: E,
    table: Table<Expression>,
    snapshot: &RequestSnapshot,
    mcp: Option<&ResourceType>,
    metadata: Option<Metadata>,
    name: Seq<char>,
    at: int,
)
    requires
        metadata_built(eval, Some(table), snapshot, mcp, metadata),
        forall|i: int, j: int|
            0 <= i < j < table.listed().len() ==> (#[trigger] table.listed()[i]).0@ != (
            #[trigger] table.listed()[j]).0@,
    ensures
        metadata is Some,
        metadata->0.filter_metadata@.contains_key(name) ==> exists|i: int, value: Json|
            0 <= i < table.listed().len() && table.listed()[i].0@ == name && #[trigger]
                call_ensures(
                    eval,
                    (&table.listed()[i].1, snapshot, mcp),
                    Evaluation::Value(value),
                ) && value@ is Object && told_as(metadata->0.filter_metadata@[name].fields@, value),
        0 <= at < table.listed().len() && (forall|outcome: Evaluation| #[trigger]
            call_ensures(eval, (&table.listed()[at].1, snapshot, mcp), outcome) ==> (
            outcome matches Evaluation::Value(value) && value is Object))
            ==> metadata->0.filter_metadata@.contains_key(table.listed()[at].0@),
{
    let listed = table.listed();
    let sent = metadata->0;
    let outcomes = choose|outcomes: Seq<Evaluation>| #[trigger]
        evaluated_metadata(listed, outcomes) == sent@ && outcomes.len() == listed.len()
            && forall|i: int|
            0 <= i < listed.len() ==> call_ensures(
                eval,
                (&listed[i].1, snapshot, mcp),
                #[trigger] outcomes[i],
            );
    assert(sent@.dom() =~= sent.filter_metadata@.dom());
    expressions_with_object_values_are_sent(listed, outcomes);
    if sent.filter_metadata@.contains_key(name) {
        assert(evaluated_metadata(listed, outcomes).contains_key(name));
        let i = choose|i: int| 0 <= i < listed.len() && (#[trigger] listed[i]).0@ == name;
        assert(call_ensures(eval, (&listed[i].1, snapshot, mcp), outcomes[i]));
        if let Evaluation::Value(value) = outcomes[i] {
            if let Json::Object(inner) = value {
                lemma_object_tree(inner);
                let fields = sent.filter_metadata@[name].fields@;
                assert(sent@[name] == members(fields));
                assert(members(fields) == members(inner@));
                assert(members(fields).len() == members(inner@).len());
                assert forall|k: int| 0 <= k < fields.len() implies (#[trigger] fields[k]).key@
                    == inner@[k].key@ && fields[k].value@ == inner@[k].value@ by {
                    assert(members(fields)[k] == members(inner@)[k]);
                }
                assert(told_as(fields, value));
                assert(call_ensures(
                    eval,
                    (&listed[i].1, snapshot, mcp),
                    Evaluation::Value(value),
                ));
            }
        }
    }
    if 0 <= at < listed.len() {
        assert(call_ensures(eval, (&listed[at].1, snapshot, mcp), outcomes[at]));
        if let Evaluation::Value(value) = outcomes[at] {
            if let Json::Object(inner) = value {
                lemma_object_tree(inner);
                assert(listed[at].0@ == listed[at].0@);
            }
        }
    }
}

/// What is built from a snapshot is the metadata that the question tells.
pub proof fn built_metadata_is_what_is_told<
    E: Fn(&Expression, &RequestSnapshot, Option<&ResourceType>) -> Evaluation,
>(
    metadata: Option<Table<Expression>>,
    snapshot: &RequestSnapshot,
    mcp: Option<&ResourceType>,
    eval: E,
    result: Option<Metadata>,
)
    requires
        call_ensures(build_metadata_from_snapshot::<E>, (&metadata, snapshot, mcp, eval), result),
    ensures
        metadata_built(eval, metadata, snapshot, mcp, result),
{
}

/// A check over gRPC sends one question, about this request, and comes to what
/// follows from what came back of it. The question tells the request's method,
/// and, without expressions configured, its claims and the thing asked for.
pub proof fn checks_ask_about_the_request<
    H,
    S: FnOnce(CheckRequest) -> Result<CheckResponse<H>, String>,
    C: Fn(&HeaderMap<HeaderValue>, &String) -> Option<String>,
    E: Fn(&Expression, &RequestSnapshot, Option<&ResourceType>) -> Evaluation,
    P: Fn(Vec<H>) -> HeaderMap<HeaderValue>,
>(
    authz: McpExtAuthz,
    send: S,
    snapshot: &RequestSnapshot,
    mcp: Option<&ResourceType>,
    collect: C,
    eval: E,
    process: P,
    verdict: Verdict,
)
    requires
        authz.0.protocol is Grpc,
        authz.checked(send, snapshot, mcp, collect, eval, process, verdict),
    ensures
        exists|request: CheckRequest, reply: Result<CheckResponse<H>, String>|
            {
                &&& #[trigger] call_ensures(send, (request,), reply)
                &&& authz.asks(request.time, snapshot, mcp, collect, eval, request)
                &&& authz.concludes(process, reply, verdict)
                &&& shown_by_the_clock(request.time)
                &&& 0 <= request.time.nanos < 1_000_000_000
                &&& request.http.method@ == snapshot.method@
                &&& authz.0.protocol->Grpc_metadata is None ==> {
                    &&& request.metadata_context is Some <==> snapshot.jwt is Some || mcp is Some
                    &&& mcp is Some ==> request.metadata_context->0.filter_metadata@.contains_key(
                        "agentgateway.filters.mcp"@,
                    )
                    &&& snapshot.jwt is Some
                        ==> request.metadata_context->0.filter_metadata@.contains_key(
                        "envoy.filters.http.jwt_authn"@,
                    )
                }
            },
{
    let (request, reply) = choose|
        request: CheckRequest,
        reply: Result<CheckResponse<H>, String>,
    |
        authz.asks(request.time, snapshot, mcp, collect, eval, request) && shown_by_the_clock(
            request.time,
        ) && 0 <= request.time.nanos < 1_000_000_000 && #[trigger] call_ensures(send, (request,), reply) && authz.concludes(
            process,
            reply,
            verdict,
        );
    if authz.0.protocol->Grpc_metadata is None {
        claims_and_resource_are_told(
            authz,
            request.time,
            snapshot,
            mcp,
            collect,
            eval,
            request,
        );
    }
    assert(call_ensures(send, (request,), reply));
}

/// A check comes to what its contract says: without gRPC to a 500, and over
/// gRPC to what follows from asking.
pub proof fn checks_come_to_a_verdict<
    H,
    S: FnOnce(CheckRequest) -> Result<CheckResponse<H>, String>,
    C: Fn(&HeaderMap<HeaderValue>, &String) -> Option<String>,
    E: Fn(&Expression, &RequestSnapshot, Option<&ResourceType>) -> Evaluation,
    P: Fn(Vec<H>) -> HeaderMap<HeaderValue>,
>(
    authz: McpExtAuthz,
    send: S,
    snapshot: &RequestSnapshot,
    mcp: Option<&ResourceType>,
    collect: C,
    eval: E,
    process: P,
    verdict: Verdict,
)
    requires
        call_ensures(
            McpExtAuthz::check::<H, S, C, E, P>,
            (&authz, send, snapshot, mcp, collect, eval, process),
            verdict,
        ),
    ensures
        authz.checked(send, snapshot, mcp, collect, eval, process, verdict),
        authz.0.protocol is Http ==> (verdict matches Err(denied) && denied.status_code == 500
            && denied.body@ == "mcp_ext_authz only supports gRPC protocol"@ && header_fields(
            denied.response_headers,
        ) == Map::<Seq<char>, Seq<Seq<u8>>>::empty()),
{
}

} // verus!
