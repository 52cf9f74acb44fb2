//! Laws on what follows from the answer of the service, or from having none.

use http::HeaderMap;
use http::HeaderValue;
use vstd::prelude::*;

use crate::config::FailureMode;
use crate::ext_authz::follows_failure_mode;
use crate::ext_authz::McpExtAuthz;
use crate::ext_authz::McpExtAuthzDenied;
use crate::ext_authz::McpExtAuthzOkResponse;
use crate::ext_authz::Verdict;
use crate::headers::header_fields;
use crate::json::Json;
use crate::metadata::dynamic_metadata_read;
use crate::metadata::merged;
use crate::metadata::read_dynamic_metadata;
use crate::metadata::readable_fields;
use crate::metadata::DynamicField;
use crate::metadata::ExtAuthzDynamicMetadata;
use crate::service::CheckResponse;
use crate::service::HttpResponse;
use crate::status::valid_status;
use crate::status::wire_status;

verus! {

/// What is concluded is what follows from what came back.
pub proof fn conclusions_follow_from_replies<H, P: Fn(Vec<H>) -> HeaderMap<HeaderValue>>(
    authz: McpExtAuthz,
    reply: Result<CheckResponse<H>, String>,
    process: P,
    verdict: Verdict,
)
    requires
        call_ensures(McpExtAuthz::conclude::<H, P>, (&authz, reply, process), verdict),
    ensures
        authz.concludes(process, reply, verdict),
{
}

/// An answer lets a request through exactly if it has no code or the code zero,
/// whatever else it holds and whatever the failure mode.
pub proof fn codes_decide<H, P: Fn(Vec<H>) -> HeaderMap<HeaderValue>>(
    authz: McpExtAuthz,
    process: P,
    answer: CheckResponse<H>,
    verdict: Verdict,
)
    requires
        authz.concludes(process, Ok(answer), verdict),
    ensures
        verdict is Ok <==> answer.status is None || answer.status == Some(0i32),
{
}

/// If the service could not be asked, the failure mode decides, and why it could
/// not plays no part: the request goes through unchanged, or is refused with the
/// status that the mode asks for if that is a status code, and otherwise with
/// 403.
pub proof fn failure_modes_decide_without_an_answer<H, P: Fn(Vec<H>) -> HeaderMap<HeaderValue>>(
    authz: McpExtAuthz,
    process: P,
    error: String,
    verdict: Verdict,
)
    requires
        authz.concludes(process, Err::<CheckResponse<H>, String>(error), verdict),
    ensures
        verdict is Ok <==> authz.0.failure_mode is Allow,
        verdict matches Ok(ok) ==> header_fields(ok.request_headers_to_add) == Map::<
            Seq<char>,
            Seq<Seq<u8>>,
        >::empty() && header_fields(ok.response_headers_to_add) == Map::<
            Seq<char>,
            Seq<Seq<u8>>,
        >::empty() && ok.request_headers_to_remove@.len() == 0 && ok.dynamic_metadata is None,
        verdict matches Err(denied) ==> denied.body@ == "external authorization denied"@
            && header_fields(denied.response_headers) == Map::<Seq<char>, Seq<Seq<u8>>>::empty(),
        authz.0.failure_mode is Deny ==> verdict->Err_0.status_code == 403,
        authz.0.failure_mode matches FailureMode::DenyWithStatus(code)
            ==> verdict->Err_0.status_code == if 100 <= code <= 999 {
            code as int
        } else {
            403
        },
{
    modes_are_followed(authz.0.failure_mode, verdict);
}

/// The same of a verdict that follows a failure mode.
pub proof fn modes_are_followed(mode: FailureMode, verdict: Verdict)
    requires
        follows_failure_mode(mode, verdict),
    ensures
        verdict is Ok <==> mode is Allow,
        verdict matches Ok(ok) ==> header_fields(ok.request_headers_to_add) == Map::<
            Seq<char>,
            Seq<Seq<u8>>,
        >::empty() && header_fields(ok.response_headers_to_add) == Map::<
            Seq<char>,
            Seq<Seq<u8>>,
        >::empty() && ok.request_headers_to_remove@.len() == 0 && ok.dynamic_metadata is None,
        verdict matches Err(denied) ==> denied.body@ == "external authorization denied"@
            && header_fields(denied.response_headers) == Map::<Seq<char>, Seq<Seq<u8>>>::empty(),
        mode is Deny ==> verdict->Err_0.status_code == 403,
        mode matches FailureMode::DenyWithStatus(code) ==> verdict->Err_0.status_code == if 100
            <= code <= 999 {
            code as int
        } else {
            403
        },
{
}

/// A failure is handled as the configured mode says, whatever the message.
pub proof fn failures_are_handled_by_mode(authz: McpExtAuthz, msg: &str, verdict: Verdict)
    requires
        call_ensures(McpExtAuthz::handle_auth_failure, (&authz, msg), verdict),
    ensures
        follows_failure_mode(authz.0.failure_mode, verdict),
        verdict is Ok <==> authz.0.failure_mode is Allow,
{
}

/// The mode told is the mode configured.
pub proof fn the_configured_mode_is_told(authz: McpExtAuthz, mode: &FailureMode)
    requires
        call_ensures(McpExtAuthz::failure_mode, (&authz,), mode),
    ensures
        *mode == authz.0.failure_mode,
{
}

/// A refusal in the words of the service has their body, the headers that
/// `process` made of theirs, and the very status that they ask for if that is a
/// status code.
pub proof fn refusals_are_in_the_words_of_the_service<
    H,
    P: Fn(Vec<H>) -> HeaderMap<HeaderValue>,
>(authz: McpExtAuthz, process: P, answer: CheckResponse<H>, verdict: Verdict)
    requires
        authz.concludes(process, Ok(answer), verdict),
        answer.status is Some,
        answer.status->0 != 0,
        answer.http_response matches Some(HttpResponse::DeniedResponse(_)),
    ensures
        verdict is Err,
        answer.http_response matches Some(HttpResponse::DeniedResponse(wanted)) ==> {
            let denied = verdict->Err_0;
            &&& denied.body@ == wanted.body@
            &&& call_ensures(process, (wanted.headers,), denied.response_headers)
            &&& wanted.status is None ==> denied.status_code == 403
            &&& wanted.status matches Some(code) ==> {
                &&& 100 <= code <= 999 ==> denied.status_code == code
                &&& 1000 <= code <= 0xffff ==> denied.status_code == 403
                &&& 0 <= code < 100 ==> denied.status_code == 403
                &&& 100 <= code % 0x1_0000 <= 999 ==> denied.status_code == code % 0x1_0000
                &&& !(100 <= code % 0x1_0000 <= 999) ==> denied.status_code == 403
            }
        },
{
}

/// A refusal without words of the service is a plain 403, under any failure mode.
pub proof fn refusals_without_words_are_plain<H, P: Fn(Vec<H>) -> HeaderMap<HeaderValue>>(
    authz: McpExtAuthz,
    process: P,
    answer: CheckResponse<H>,
    verdict: Verdict,
)
    requires
        authz.concludes(process, Ok(answer), verdict),
        answer.status is Some,
        answer.status->0 != 0,
        !(answer.http_response matches Some(HttpResponse::DeniedResponse(_))),
    ensures
        verdict matches Err(denied) && denied.status_code == 403 && denied.body@
            == "external authorization denied"@ && header_fields(denied.response_headers) == Map::<
            Seq<char>,
            Seq<Seq<u8>>,
        >::empty(),
{
}

/// A request that goes through is changed as the service wants: the headers that
/// it names are made into header maps, and those that it wants gone are listed.
/// Where it names none, none are added; without its words nothing is changed.
pub proof fn passes_carry_the_wanted_headers<H, P: Fn(Vec<H>) -> HeaderMap<HeaderValue>>(
    authz: McpExtAuthz,
    process: P,
    answer: CheckResponse<H>,
    verdict: Verdict,
)
    requires
        authz.concludes(process, Ok(answer), verdict),
        answer.status is None || answer.status == Some(0i32),
    ensures
        verdict is Ok,
        answer.http_response matches Some(HttpResponse::OkResponse(wanted)) ==> {
            let ok = verdict->Ok_0;
            &&& wanted.headers@.len() > 0 ==> call_ensures(
                process,
                (wanted.headers,),
                ok.request_headers_to_add,
            )
            &&& wanted.headers@.len() == 0 ==> header_fields(ok.request_headers_to_add) == Map::<
                Seq<char>,
                Seq<Seq<u8>>,
            >::empty()
            &&& ok.request_headers_to_remove@ == wanted.headers_to_remove@
            &&& wanted.response_headers_to_add@.len() > 0 ==> call_ensures(
                process,
                (wanted.response_headers_to_add,),
                ok.response_headers_to_add,
            )
            &&& wanted.response_headers_to_add@.len() == 0 ==> header_fields(
                ok.response_headers_to_add,
            ) == Map::<Seq<char>, Seq<Seq<u8>>>::empty()
        },
        !(answer.http_response matches Some(HttpResponse::OkResponse(_))) ==> {
            let ok = verdict->Ok_0;
            &&& header_fields(ok.request_headers_to_add) == Map::<
                Seq<char>,
                Seq<Seq<u8>>,
            >::empty()
            &&& ok.request_headers_to_remove@.len() == 0
            &&& header_fields(ok.response_headers_to_add) == Map::<
                Seq<char>,
                Seq<Seq<u8>>,
            >::empty()
        },
{
}

/// Whatever an answer that lets a request through says of headers, each field of
/// its metadata that has a JSON form is carried along under its name, with its
/// value unless a later field has the same name.
pub proof fn passes_carry_each_readable_field<H, P: Fn(Vec<H>) -> HeaderMap<HeaderValue>>(
    authz: McpExtAuthz,
    process: P,
    answer: CheckResponse<H>,
    verdict: Verdict,
    fields: Vec<DynamicField>,
    i: int,
    value: Json,
)
    requires
        authz.concludes(process, Ok(answer), verdict),
        answer.status is None || answer.status == Some(0i32),
        answer.dynamic_metadata == Some(fields),
        0 <= i < fields@.len(),
        fields@[i].value == Some(value),
    ensures
        verdict is Ok,
        verdict->Ok_0.dynamic_metadata is Some,
        (verdict->Ok_0.dynamic_metadata->0).0@.contains_key(fields@[i].key@),
        (forall|j: int|
            i < j < fields@.len() ==> (#[trigger] fields@[j]).key@ != fields@[i].key@
                || fields@[j].value is None) ==> (verdict->Ok_0.dynamic_metadata->0).0@[fields@[i].key@]@
            == value@,
{
    lemma_readable(fields@, i);
    let read = verdict->Ok_0.dynamic_metadata;
    assert(readable_fields(fields@).contains_key(fields@[i].key@));
    assert((read->0)@.dom() =~= (read->0).0@.dom());
}

/// What is carried along is there because a field of the answer's metadata says
/// so; if no field has a JSON form, or there are none, nothing is carried along.
pub proof fn passes_carry_only_readable_fields<H, P: Fn(Vec<H>) -> HeaderMap<HeaderValue>>(
    authz: McpExtAuthz,
    process: P,
    answer: CheckResponse<H>,
    verdict: Verdict,
    name: Seq<char>,
)
    requires
        authz.concludes(process, Ok(answer), verdict),
        answer.status is None || answer.status == Some(0i32),
    ensures
        verdict is Ok,
        answer.dynamic_metadata is None ==> verdict->Ok_0.dynamic_metadata is None,
        verdict->Ok_0.dynamic_metadata matches Some(read) ==> {
            let fields = answer.dynamic_metadata->0@;
            &&& exists|i: int| 0 <= i < fields.len() && (#[trigger] fields[i]).value is Some
            &&& read.0@.contains_key(name) ==> exists|i: int|
                0 <= i < fields.len() && (#[trigger] fields[i]).key@ == name && (
                fields[i].value matches Some(value) && value@ == read.0@[name]@)
        },
{
    if let Some(read) = verdict->Ok_0.dynamic_metadata {
        let fields = answer.dynamic_metadata->0@;
        only_readable_fields_are_read(Some(fields), read, name);
    }
}

/// The same of metadata that was read.
pub proof fn only_readable_fields_are_read(
    fields: Option<Seq<DynamicField>>,
    read: ExtAuthzDynamicMetadata,
    name: Seq<char>,
)
    requires
        dynamic_metadata_read(fields, Some(read)),
    ensures
        fields is Some,
        exists|i: int| 0 <= i < fields->0.len() && (#[trigger] fields->0[i]).value is Some,
        read.0@.contains_key(name) ==> exists|i: int|
            0 <= i < fields->0.len() && (#[trigger] fields->0[i]).key@ == name && (
            fields->0[i].value matches Some(value) && value@ == read.0@[name]@),
{
    let all = fields->0;
    assert(read@.dom() =~= read.0@.dom());
    if forall|key: Seq<char>| !(#[trigger] readable_fields(all).contains_key(key)) {
        assert(readable_fields(all) =~= Map::empty());
    }
    let some = choose|key: Seq<char>| #[trigger] readable_fields(all).contains_key(key);
    lemma_read_from(all, some);
    if read.0@.contains_key(name) {
        assert(readable_fields(all).contains_key(name));
        lemma_read_from(all, name);
    }
}

/// A field with a JSON form is read, and stands unless a later one replaces it.
proof fn lemma_readable(fields: Seq<DynamicField>, i: int)
    requires
        0 <= i < fields.len(),
        fields[i].value is Some,
    ensures
        readable_fields(fields).contains_key(fields[i].key@),
        (forall|j: int|
            i < j < fields.len() ==> (#[trigger] fields[j]).key@ != fields[i].key@
                || fields[j].value is None) ==> readable_fields(fields)[fields[i].key@]
            == fields[i].value->0@,
    decreases fields.len(),
{
    let front = fields.drop_last();
    let last = fields.len() - 1;
    if i < last {
        lemma_readable(front, i);
        assert(front[i] == fields[i]);
        if forall|j: int|
            i < j < fields.len() ==> (#[trigger] fields[j]).key@ != fields[i].key@
                || fields[j].value is None {
            assert forall|j: int| i < j < front.len() implies (#[trigger] front[j]).key@
                != front[i].key@ || front[j].value is None by {
                assert(front[j] == fields[j]);
            }
            assert(fields[last].key@ != fields[i].key@ || fields[last].value is None);
        }
    }
}

/// What is read under a name comes from a field of that name.
proof fn lemma_read_from(fields: Seq<DynamicField>, name: Seq<char>)
    requires
        readable_fields(fields).contains_key(name),
    ensures
        exists|i: int|
            0 <= i < fields.len() && (#[trigger] fields[i]).key@ == name && (
            fields[i].value matches Some(value) && value@ == readable_fields(fields)[name]),
    decreases fields.len(),
{
    if fields.len() > 0 {
        let front = fields.drop_last();
        let last = fields.len() - 1;
        if fields[last].value is Some && fields[last].key@ == name {
            assert(fields[last].key@ == name);
        } else {
            lemma_read_from(front, name);
            let i = choose|i: int|
                0 <= i < front.len() && (#[trigger] front[i]).key@ == name && (
                front[i].value matches Some(value) && value@ == readable_fields(front)[name]);
            assert(fields[i] == front[i]);
        }
    }
}

/// Metadata is read exactly if a field has a JSON form.
pub proof fn metadata_is_read_if_a_field_is(
    fields: Option<Vec<DynamicField>>,
    metadata: Option<ExtAuthzDynamicMetadata>,
    i: int,
)
    requires
        call_ensures(read_dynamic_metadata, (fields,), metadata),
    ensures
        fields is None ==> metadata is None,
        fields matches Some(list) ==> dynamic_metadata_read(Some(list@), metadata),
        fields matches Some(list) && 0 <= i < list@.len() && list@[i].value is Some
            ==> metadata is Some && (metadata->0).0@.contains_key((fields->0)@[i].key@),
        metadata is Some ==> fields is Some && exists|k: int|
            0 <= k < (fields->0)@.len() && (#[trigger] (fields->0)@[k]).value is Some,
{
    if let Some(list) = fields {
        if 0 <= i < list@.len() && list@[i].value is Some {
            lemma_readable(list@, i);
            assert(readable_fields(list@).contains_key(list@[i].key@));
            assert((metadata->0)@.dom() =~= (metadata->0).0@.dom());
        }
        if let Some(read) = metadata {
            only_readable_fields_are_read(Some(list@), read, Seq::empty());
        }
    }
}

/// Metadata of two levels put together says all that either says, and where both
/// speak, what the backend's says. Without a route's, it is the backend's.
pub proof fn levels_are_put_together(
    route: Option<&ExtAuthzDynamicMetadata>,
    backend: ExtAuthzDynamicMetadata,
    result: ExtAuthzDynamicMetadata,
    name: Seq<char>,
)
    requires
        call_ensures(ExtAuthzDynamicMetadata::merge_levels, (route, &backend), result),
    ensures
        result.0@.contains_key(name) <==> backend.0@.contains_key(name) || (route matches Some(level)
            && level.0@.contains_key(name)),
        backend.0@.contains_key(name) ==> result.0@[name]@ == backend.0@[name]@,
        route matches Some(level) && level.0@.contains_key(name) && !backend.0@.contains_key(name)
            ==> result.0@[name]@ == (route->0).0@[name]@,
{
    assert(result@.dom() =~= result.0@.dom());
    assert(backend@.dom() =~= backend.0@.dom());
    assert(result@ == merged(route, &backend));
    if let Some(level) = route {
        assert(level@.dom() =~= level.0@.dom());
    }
    if result.0@.contains_key(name) {
        assert(result@[name] == result.0@[name]@);
    }
    if backend.0@.contains_key(name) {
        assert(backend@[name] == backend.0@[name]@);
    }
}

/// A refusal made without more is an empty 403, and it is described in words.
pub proof fn default_refusals_are_forbidden(
    denied: McpExtAuthzDenied,
    other: McpExtAuthzDenied,
    text: String,
)
    requires
        call_ensures(<McpExtAuthzDenied as Default>::default, (), denied),
        call_ensures(McpExtAuthzDenied::description, (&other,), text),
    ensures
        denied.status_code == 403,
        denied.body@.len() == 0,
        header_fields(denied.response_headers) == Map::<Seq<char>, Seq<Seq<u8>>>::empty(),
        text@ == "mcp ext_authz denied"@,
{
}

/// A pass made without more changes nothing.
pub proof fn default_passes_change_nothing(ok: McpExtAuthzOkResponse)
    requires
        call_ensures(<McpExtAuthzOkResponse as Default>::default, (), ok),
    ensures
        header_fields(ok.request_headers_to_add) == Map::<Seq<char>, Seq<Seq<u8>>>::empty(),
        ok.request_headers_to_remove@.len() == 0,
        header_fields(ok.response_headers_to_add) == Map::<Seq<char>, Seq<Seq<u8>>>::empty(),
        ok.dynamic_metadata is None,
{
}

/// A number from 100 to 999 is a status, as configured and off the wire; another
/// number is replaced by 403. Off the wire only the low sixteen bits count.
pub proof fn status_codes_are_kept(code: u16, status: u16, wire_code: i32, off_wire: u16)
    requires
        call_ensures(valid_status, (code,), status),
        call_ensures(wire_status, (wire_code,), off_wire),
    ensures
        100 <= code <= 999 ==> status == code,
        code < 100 || code > 999 ==> status == 403,
        100 <= wire_code <= 999 ==> off_wire == wire_code,
        100 <= wire_code % 0x1_0000 <= 999 ==> off_wire == wire_code % 0x1_0000,
        !(100 <= wire_code % 0x1_0000 <= 999) ==> off_wire == 403,
{
}

} // verus!
