//! Laws on the counter server.

use http::HeaderMap;
use http::HeaderValue;
use vstd::prelude::*;
use vstd::utf8::decode_utf8;
use vstd::utf8::valid_utf8;

use crate::answer::RpcError;
use crate::body::utf8_lossy;
use crate::counter::object_text;
use crate::counter::CallToolResult;
use crate::counter::Counter;
use crate::counter::CounterAnalysisArgs;
use crate::counter::ExamplePromptArgs;
use crate::counter::GetPromptResult;
use crate::counter::PromptMessage;
use crate::counter::PromptMessageRole;
use crate::counter::Resource;
use crate::counter::ResourceContents;
use crate::counter::ServerInfo;
use crate::counter::StructRequest;
use crate::headers::header_fields;
use crate::headers::texts;
use crate::json::JsonView;
use crate::text::decimal;

verus! {

proof fn lemma_says(result: CallToolResult, text: Seq<char>)
    requires
        result.says(text),
    ensures
        result.content@.len() == 1,
        result.content@[0]@ == text,
{
    assert(texts(result.content@).len() == 1);
    assert(texts(result.content@)[0] == text);
}

/// Incrementing adds one and tells the new value, whatever the old one.
pub proof fn increment_adds_one(server: &mut Counter, result: CallToolResult)
    requires
        call_ensures(Counter::increment, (server,), result),
    ensures
        final(server)@ == old(server)@ + 1,
        result.content@.len() == 1,
        result.content@[0]@ == decimal(old(server)@ + 1),
{
    lemma_says(result, decimal(old(server)@ + 1));
}

/// Decrementing takes one away and tells the new value, whatever the old one.
pub proof fn decrement_takes_one(server: &mut Counter, result: CallToolResult)
    requires
        call_ensures(Counter::decrement, (server,), result),
    ensures
        final(server)@ == old(server)@ - 1,
        result.content@.len() == 1,
        result.content@[0]@ == decimal(old(server)@ - 1),
{
    lemma_says(result, decimal(old(server)@ - 1));
}

/// Each of the two undoes the other.
pub proof fn decrement_undoes_increment(
    server: &mut Counter,
    up: CallToolResult,
    then: &mut Counter,
    down: CallToolResult,
)
    requires
        call_ensures(Counter::increment, (server,), up),
        *old(then) == *final(server),
        call_ensures(Counter::decrement, (then,), down),
    ensures
        final(then)@ == old(server)@,
{
}

/// The counter starts at zero, and its value is told as it is.
pub proof fn the_value_is_told(
    new: Counter,
    server: Counter,
    value: i32,
    result: CallToolResult,
)
    requires
        call_ensures(Counter::new, (), new),
        call_ensures(Counter::value, (&server,), value),
        call_ensures(Counter::get_value, (&server,), result),
    ensures
        new@ == 0,
        value == server@,
        result.content@.len() == 1,
        result.content@[0]@ == decimal(value as int),
{
    lemma_says(result, decimal(server@ as int));
}

/// The sum of two numbers is told, and hello is said.
pub proof fn sums_are_told(
    server: Counter,
    request: StructRequest,
    result: CallToolResult,
    hello: CallToolResult,
)
    requires
        call_ensures(Counter::sum, (&server, request), result),
        call_ensures(Counter::say_hello, (&server,), hello),
    ensures
        result.content@.len() == 1,
        result.content@[0]@ == decimal(request.a + request.b),
        hello.content@.len() == 1,
        hello.content@[0]@ == "hello"@,
{
    lemma_says(result, decimal(request.a + request.b));
    lemma_says(hello, "hello"@);
}

/// An object is told back as its compact text.
pub proof fn objects_are_told_back(
    server: Counter,
    object: serde_json::Map<String, serde_json::Value>,
    result: CallToolResult,
)
    requires
        call_ensures(Counter::echo, (&server, object), result),
    ensures
        result.content@.len() == 1,
        result.content@[0]@ == object_text(object),
{
    lemma_says(result, object_text(object));
}

/// The first value of the `authorization` header is told, as it stands if it is
/// UTF-8; without the header, an empty text.
pub proof fn authorization_is_told(
    server: Counter,
    headers: HeaderMap<HeaderValue>,
    result: CallToolResult,
)
    requires
        call_ensures(Counter::echo_http, (&server, &headers), result),
    ensures
        result.content@.len() == 1,
        header_fields(headers).contains_key("authorization"@) ==> result.content@[0]@ == utf8_lossy(
            header_fields(headers)["authorization"@][0],
        ),
        header_fields(headers).contains_key("authorization"@) && valid_utf8(
            header_fields(headers)["authorization"@][0],
        ) ==> result.content@[0]@ == decode_utf8(header_fields(headers)["authorization"@][0]),
        !header_fields(headers).contains_key("authorization"@) ==> result.content@[0]@.len() == 0,
{
    if header_fields(headers).contains_key("authorization"@) {
        let value = header_fields(headers)["authorization"@][0];
        lemma_says(result, utf8_lossy(value));
        if valid_utf8(value) {
            lemma_says(result, decode_utf8(value));
        }
    } else {
        lemma_says(result, Seq::empty());
    }
}

/// The example prompt puts the message between quotes.
pub proof fn prompts_repeat_the_message(
    server: Counter,
    args: ExamplePromptArgs,
    messages: Vec<PromptMessage>,
)
    requires
        call_ensures(Counter::example_prompt, (&server, args), messages),
    ensures
        messages@.len() == 1,
        messages@[0].role == PromptMessageRole::User,
        messages@[0].text@ == "This is an example prompt with your message here: '"@
            + args.message@ + "'"@,
{
}

/// The analysis tells the value, the goal, how far apart they are, and the
/// strategy, which is careful unless another is preferred.
pub proof fn analyses_tell_the_difference(
    server: Counter,
    args: CounterAnalysisArgs,
    result: GetPromptResult,
)
    requires
        call_ensures(Counter::counter_analysis, (&server, args), result),
    ensures
        result.description is Some,
        result.description->0@ == "Counter analysis for reaching "@ + decimal(args.goal as int)
            + " from "@ + decimal(server@ as int),
        result.messages@.len() == 2,
        result.messages@[0].role == PromptMessageRole::Assistant,
        result.messages@[0].text@
            == "I'll analyze the counter situation and suggest the best approach."@,
        result.messages@[1].role == PromptMessageRole::User,
        ({
            let strategy = match args.strategy {
                Some(strategy) => strategy@,
                None => "careful"@,
            };
            result.messages@[1].text@ == "Current counter value: "@ + decimal(server@ as int)
                + "\nGoal value: "@ + decimal(args.goal as int) + "\nDifference: "@ + decimal(
                args.goal - server@,
            ) + "\nStrategy preference: "@ + strategy
                + "\n\nPlease analyze the situation and suggest the best approach to reach the goal."@
        }),
{
}

/// The server offers prompts, resources and tools, before and at the start of a
/// session.
pub proof fn everything_is_offered(server: Counter, info: ServerInfo, first: ServerInfo)
    requires
        call_ensures(Counter::get_info, (&server,), info),
        call_ensures(Counter::initialize, (&server,), first),
    ensures
        info.prompts && info.resources && info.tools,
        info.protocol_version@ == "2025-06-18"@,
        info.instructions is Some,
        info.instructions->0@ == "This server provides counter tools and prompts."@,
        first.prompts && first.resources && first.tools,
        first.protocol_version@ == info.protocol_version@,
        first.instructions is Some,
        first.instructions->0@ == info.instructions->0@,
{
}

/// Two resources are on offer, and no templates.
pub proof fn two_resources_are_offered(
    server: Counter,
    resources: Vec<Resource>,
    templates: Vec<Resource>,
)
    requires
        call_ensures(Counter::list_resources, (&server,), resources),
        call_ensures(Counter::list_resource_templates, (&server,), templates),
    ensures
        resources@.len() == 2,
        resources@[0].uri@ == "str:////Users/to/some/path/"@,
        resources@[0].name@ == "cwd"@,
        resources@[1].uri@ == "memo://insights"@,
        resources@[1].name@ == "memo-name"@,
        templates@.len() == 0,
{
    lemma_offered(server, resources);
}

proof fn lemma_offered(server: Counter, resources: Vec<Resource>)
    requires
        call_ensures(Counter::list_resources, (&server,), resources),
    ensures
        resources@.len() == 2,
        resources@[0].uri@ == "str:////Users/to/some/path/"@,
        resources@[0].name@ == "cwd"@,
        resources@[1].uri@ == "memo://insights"@,
        resources@[1].name@ == "memo-name"@,
{
    let uris = resources@.map_values(|r: Resource| r.uri@);
    let names = resources@.map_values(|r: Resource| r.name@);
    assert(uris.len() == 2);
    assert(uris[0] == "str:////Users/to/some/path/"@ && uris[1] == "memo://insights"@);
    assert(names[0] == "cwd"@ && names[1] == "memo-name"@);
}

/// A resource can be read exactly if it is on offer. What is read has the
/// address that was asked for, and an error names it.
pub proof fn offered_resources_are_read(
    server: Counter,
    uri: String,
    result: Result<ResourceContents, RpcError>,
    resources: Vec<Resource>,
)
    requires
        call_ensures(Counter::read_resource, (&server, uri), result),
        call_ensures(Counter::list_resources, (&server,), resources),
    ensures
        result is Ok <==> exists|i: int|
            0 <= i < resources@.len() && (#[trigger] resources@[i]).uri@ == uri@,
        result matches Ok(contents) ==> contents.uri@ == uri@,
        uri@ == "str:////Users/to/some/path/"@ ==> result->Ok_0.text@ == "/Users/to/some/path/"@,
        uri@ == "memo://insights"@ ==> result->Ok_0.text@
            == "Business Intelligence Memo\n\nAnalysis has revealed 5 key insights ..."@,
        result matches Err(error) ==> error.code == -32002 && error.message@
            == "resource_not_found"@ && (error.data matches Some(data) && data@
            == JsonView::Object(seq![("uri"@, JsonView::Text(uri@))])),
{
    reveal_strlit("str:////Users/to/some/path/");
    reveal_strlit("memo://insights");
    assert("str:////Users/to/some/path/"@[0] == 's' && "memo://insights"@[0] == 'm');
    lemma_offered(server, resources);
    if uri@ == "str:////Users/to/some/path/"@ {
        assert(resources@[0].uri@ == uri@);
    }
    if uri@ == "memo://insights"@ {
        assert(resources@[1].uri@ == uri@);
    }
}

} // verus!
