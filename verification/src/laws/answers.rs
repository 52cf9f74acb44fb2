//! Laws on what a refused caller is answered.

use vstd::prelude::*;

use crate::answer::DeniedAnswer;
use crate::answer::ExtAuthzDeniedInfo;
use crate::answer::RequestId;
use crate::answer::RpcError;
use crate::ext_authz::McpExtAuthzDenied;
use crate::json::JsonView;
use crate::resource::ResourceType;
use crate::text::decimal;

verus! {

/// The answer to a refused request has the status and the headers of the
/// refusal, and is a JSON-RPC error with the request's identifier, the code of
/// an error on the inside, and the refusal's body as its message.
pub proof fn refusals_are_answered_in_json_rpc(info: ExtAuthzDeniedInfo, answer: DeniedAnswer)
    requires
        call_ensures(ExtAuthzDeniedInfo::into_response, (info,), answer),
    ensures
        info.answered_with(answer),
        answer.status == info.status_code,
        answer.headers == info.response_headers,
        answer.content_type@ == "application/json"@,
        answer.body@ is Object,
        ({
            let message = answer.body@->Object_0;
            &&& message.len() == 3
            &&& message[0] == ("jsonrpc"@, JsonView::Text("2.0"@))
            &&& message[1].0 == "id"@
            &&& info.req_id matches RequestId::Number(n) ==> message[1].1 == JsonView::Number(
                decimal(n as int),
            )
            &&& info.req_id matches RequestId::Text(text) ==> message[1].1 == JsonView::Text(text@)
            &&& message[2].0 == "error"@
            &&& message[2].1 is Object
            &&& message[2].1->Object_0.len() == 2
            &&& message[2].1->Object_0[0] == ("code"@, JsonView::Number(decimal(-32603)))
            &&& message[2].1->Object_0[1] == ("message"@, JsonView::Text(info.body@))
        }),
{
}

/// A refusal keeps its status, headers and body on the way to the caller, and
/// goes with the identifier of the request.
pub proof fn refusals_keep_their_words(
    req_id: RequestId,
    denied: McpExtAuthzDenied,
    info: ExtAuthzDeniedInfo,
)
    requires
        call_ensures(ExtAuthzDeniedInfo::new, (req_id, denied), info),
    ensures
        info.refuses(req_id, denied),
        info.req_id == req_id,
        info.response_headers == denied.response_headers,
        info.status_code == denied.status_code,
        info.body == denied.body,
{
}

/// Something that the caller may not use is answered as unknown, by its kind and
/// its name.
pub proof fn denied_things_are_unknown(resource: ResourceType, error: RpcError)
    requires
        call_ensures(ResourceType::denied_error, (&resource,), error),
    ensures
        error.code == -32602,
        error.data is None,
        resource matches ResourceType::Tool(id) ==> error.message@ == "Unknown tool: "@ + id.name@,
        resource matches ResourceType::Prompt(id) ==> error.message@ == "Unknown prompt: "@
            + id.name@,
        resource matches ResourceType::Resource(id) ==> error.message@ == "Unknown resource: "@
            + id.name@,
{
    reveal_strlit("Unknown ");
    reveal_strlit(": ");
    reveal_strlit("tool");
    reveal_strlit("prompt");
    reveal_strlit("resource");
    reveal_strlit("Unknown tool: ");
    reveal_strlit("Unknown prompt: ");
    reveal_strlit("Unknown resource: ");
    assert("Unknown "@ + "tool"@ + ": "@ =~= "Unknown tool: "@);
    assert("Unknown "@ + "prompt"@ + ": "@ =~= "Unknown prompt: "@);
    assert("Unknown "@ + "resource"@ + ": "@ =~= "Unknown resource: "@);
}

} // verus!
