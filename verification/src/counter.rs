//! A server with a counter, to try a gateway on.

use http::HeaderMap;
use http::HeaderValue;
use vstd::prelude::*;
use vstd::string::StringExecFns;
use vstd::utf8::decode_utf8;
use vstd::utf8::valid_utf8;

use crate::answer::RpcError;
use crate::answer::RESOURCE_NOT_FOUND;
use crate::body::text_of_bytes;
use crate::body::utf8_lossy;
use crate::headers::first_value;
use crate::headers::header_fields;
use crate::headers::is_plain_name;
use crate::headers::texts;
use crate::json::lemma_object_tree;
use crate::json::members;
use crate::json::Field;
use crate::json::Json;
use crate::json::JsonView;
use crate::text::decimal;
use crate::text::decimal_text;

verus! {

/// `serde_json::Value`, a JSON value.
#[verifier::external_type_specification]
#[verifier::external_body]
pub struct ExValue(serde_json::Value);

/// `serde_json::Map`, the members of a JSON object.
#[verifier::external_type_specification]
#[verifier::external_body]
#[verifier::reject_recursive_types(K)]
#[verifier::reject_recursive_types(V)]
pub struct ExMap<K, V>(serde_json::Map<K, V>);

/// What a map of members holds, as compact JSON text.
pub uninterp spec fn object_text(object: serde_json::Map<String, serde_json::Value>) -> Seq<char>;

/// Calls `<serde_json::Value as ToString>::to_string` on the object with the
/// given members, which writes it as compact JSON text.
#[verifier::external_body]
fn compact_text(object: serde_json::Map<String, serde_json::Value>) -> (text: String)
    ensures
        text@ == object_text(object),
{
    serde_json::Value::Object(object).to_string()
}

/// A message to put in the prompt.
#[derive(Debug)]
pub struct ExamplePromptArgs {
    pub message: String,
}

/// What to analyze the counter for.
#[derive(Debug)]
pub struct CounterAnalysisArgs {
    /// The value to reach.
    pub goal: i32,
    /// The preferred strategy, `fast` or `careful`.
    pub strategy: Option<String>,
}

/// Two numbers to add.
#[derive(Debug)]
pub struct StructRequest {
    pub a: i32,
    pub b: i32,
}

/// The result of a tool call that went well: a list of texts.
#[derive(Debug, PartialEq)]
pub struct CallToolResult {
    pub content: Vec<String>,
}

impl CallToolResult {
    /// Whether the result is the given text and nothing else.
    pub open spec fn says(self, text: Seq<char>) -> bool {
        texts(self.content@) == seq![text]
    }

    fn success(text: String) -> (result: CallToolResult)
        ensures
            result.says(text@),
    {
        let mut content: Vec<String> = Vec::new();
        content.push(text);
        assert(texts(content@) =~= seq![text@]);
        CallToolResult { content }
    }
}

/// Who speaks in a prompt.
#[derive(Debug, Clone, Copy, PartialEq, Eq, Structural)]
pub enum PromptMessageRole {
    User,
    Assistant,
}

#[derive(Debug, PartialEq)]
pub struct PromptMessage {
    pub role: PromptMessageRole,
    pub text: String,
}

/// A prompt, with a word on what it is for.
#[derive(Debug, PartialEq)]
pub struct GetPromptResult {
    pub description: Option<String>,
    pub messages: Vec<PromptMessage>,
}

/// What the server can do.
#[derive(Debug, PartialEq)]
pub struct ServerInfo {
    pub protocol_version: String,
    pub prompts: bool,
    pub resources: bool,
    pub tools: bool,
    pub instructions: Option<String>,
}

impl ServerInfo {
    /// Whether this is what the counter server can do: prompts, resources and
    /// tools.
    pub open spec fn tells_all(self) -> bool {
        &&& self.protocol_version@ == "2025-06-18"@
        &&& self.prompts && self.resources && self.tools
        &&& self.instructions matches Some(text) && text@
            == "This server provides counter tools and prompts."@
    }
}

/// A resource on offer.
#[derive(Debug, PartialEq)]
pub struct Resource {
    pub uri: String,
    pub name: String,
}

/// The text of a resource.
#[derive(Debug, PartialEq)]
pub struct ResourceContents {
    pub uri: String,
    pub text: String,
}

/// The text of the resource with the given address, if there is one.
pub open spec fn resource_text(uri: Seq<char>) -> Option<Seq<char>> {
    if uri == "str:////Users/to/some/path/"@ {
        Some("/Users/to/some/path/"@)
    } else if uri == "memo://insights"@ {
        Some("Business Intelligence Memo\n\nAnalysis has revealed 5 key insights ..."@)
    } else {
        None
    }
}

/// The addresses of the resources on offer.
pub open spec fn offered_uris() -> Seq<Seq<char>> {
    seq!["str:////Users/to/some/path/"@, "memo://insights"@]
}

/// The resources on offer are those that can be read.
pub proof fn offered_resources_are_the_readable_ones(uri: Seq<char>)
    ensures
        offered_uris().contains(uri) <==> resource_text(uri) is Some,
{
    assert(offered_uris()[0] == "str:////Users/to/some/path/"@);
    assert(offered_uris()[1] == "memo://insights"@);
}

/// The question of a counter analysis.
pub open spec fn analysis_text(current: int, goal: int, strategy: Seq<char>) -> Seq<char> {
    "Current counter value: "@ + decimal(current) + "\nGoal value: "@ + decimal(goal)
        + "\nDifference: "@ + decimal(goal - current) + "\nStrategy preference: "@ + strategy
        + "\n\nPlease analyze the situation and suggest the best approach to reach the goal."@
}

/// A server with a counter.
#[derive(Debug)]
pub struct Counter {
    counter: i32,
}

impl View for Counter {
    type V = i32;

    closed spec fn view(&self) -> i32 {
        self.counter
    }
}

impl Counter {
    /// A server whose counter is at zero.
    pub fn new() -> (server: Counter)
        ensures
            server@ == 0,
    {
        Counter { counter: 0 }
    }

    /// Where the counter stands.
    pub fn value(&self) -> (value: i32)
        ensures
            value == self@,
    {
        self.counter
    }

    fn create_resource_text(&self, uri: &str, name: &str) -> (resource: Resource)
        ensures
            resource.uri@ == uri@,
            resource.name@ == name@,
    {
        Resource { uri: uri.to_owned(), name: name.to_owned() }
    }

    /// Increments the counter by one and tells its value.
    pub fn increment(&mut self) -> (result: CallToolResult)
        requires
            old(self)@ < i32::MAX,
        ensures
            final(self)@ == old(self)@ + 1,
            result.says(decimal(old(self)@ + 1)),
    {
        self.counter = self.counter + 1;
        CallToolResult::success(decimal_text(self.counter as i64))
    }

    /// Decrements the counter by one and tells its value.
    pub fn decrement(&mut self) -> (result: CallToolResult)
        requires
            old(self)@ > i32::MIN,
        ensures
            final(self)@ == old(self)@ - 1,
            result.says(decimal(old(self)@ - 1)),
    {
        self.counter = self.counter - 1;
        CallToolResult::success(decimal_text(self.counter as i64))
    }

    /// Tells the value of the counter.
    pub fn get_value(&self) -> (result: CallToolResult)
        ensures
            result.says(decimal(self@ as int)),
    {
        CallToolResult::success(decimal_text(self.counter as i64))
    }

    /// Says hello.
    pub fn say_hello(&self) -> (result: CallToolResult)
        ensures
            result.says("hello"@),
    {
        CallToolResult::success("hello".to_owned())
    }

    /// Repeats what it is given, as JSON text.
    pub fn echo(&self, object: serde_json::Map<String, serde_json::Value>) -> (result:
        CallToolResult)
        ensures
            result.says(object_text(object)),
    {
        CallToolResult::success(compact_text(object))
    }

    /// Tells the sum of two numbers.
    pub fn sum(&self, request: StructRequest) -> (result: CallToolResult)
        requires
            i32::MIN <= request.a + request.b <= i32::MAX,
        ensures
            result.says(decimal(request.a + request.b)),
    {
        let total: i32 = request.a + request.b;
        CallToolResult::success(decimal_text(total as i64))
    }

    /// Tells the `authorization` header of the request, or an empty text if it
    /// has none. A value that is UTF-8 is told as it stands.
    pub fn echo_http(&self, headers: &HeaderMap<HeaderValue>) -> (result: CallToolResult)
        ensures
            result.says(
                if header_fields(*headers).contains_key("authorization"@) {
                    utf8_lossy(header_fields(*headers)["authorization"@][0])
                } else {
                    Seq::empty()
                },
            ),
            header_fields(*headers).contains_key("authorization"@) && valid_utf8(
                header_fields(*headers)["authorization"@][0],
            ) ==> result.says(decode_utf8(header_fields(*headers)["authorization"@][0])),
    {
        proof {
            reveal_strlit("authorization");
            assert(is_plain_name("authorization"@));
        }
        match first_value(headers, "authorization") {
            Some(value) => CallToolResult::success(text_of_bytes(value.as_slice())),
            None => CallToolResult::success(String::new()),
        }
    }

    /// A prompt that repeats the message.
    pub fn example_prompt(&self, args: ExamplePromptArgs) -> (messages: Vec<PromptMessage>)
        ensures
            messages@.len() == 1,
            messages@[0].role == PromptMessageRole::User,
            messages@[0].text@ == "This is an example prompt with your message here: '"@
                + args.message@ + "'"@,
    {
        let mut text = "This is an example prompt with your message here: '".to_owned();
        text.append(args.message.as_str());
        text.append("'");
        let mut messages: Vec<PromptMessage> = Vec::new();
        messages.push(PromptMessage { role: PromptMessageRole::User, text });
        messages
    }

    /// A prompt on how to get the counter to a value. Without a preferred
    /// strategy it asks for a careful one.
    pub fn counter_analysis(&self, args: CounterAnalysisArgs) -> (result: GetPromptResult)
        requires
            i32::MIN <= args.goal - self@ <= i32::MAX,
        ensures
            result.description is Some,
            result.description->0@ == "Counter analysis for reaching "@ + decimal(args.goal as int)
                + " from "@ + decimal(self@ as int),
            result.messages@.len() == 2,
            result.messages@[0].role == PromptMessageRole::Assistant,
            result.messages@[0].text@
                == "I'll analyze the counter situation and suggest the best approach."@,
            result.messages@[1].role == PromptMessageRole::User,
            result.messages@[1].text@ == analysis_text(
                self@ as int,
                args.goal as int,
                match args.strategy {
                    Some(strategy) => strategy@,
                    None => "careful"@,
                },
            ),
    {
        let strategy = match args.strategy {
            Some(strategy) => strategy,
            None => "careful".to_owned(),
        };
        let current_value: i32 = self.counter;
        let difference: i32 = args.goal - current_value;
        let goal_text = decimal_text(args.goal as i64);
        let current_text = decimal_text(current_value as i64);

        let mut question = "Current counter value: ".to_owned();
        question.append(current_text.as_str());
        question.append("\nGoal value: ");
        question.append(goal_text.as_str());
        question.append("\nDifference: ");
        question.append(decimal_text(difference as i64).as_str());
        question.append("\nStrategy preference: ");
        question.append(strategy.as_str());
        question.append(
            "\n\nPlease analyze the situation and suggest the best approach to reach the goal.",
        );

        let mut description = "Counter analysis for reaching ".to_owned();
        description.append(goal_text.as_str());
        description.append(" from ");
        description.append(current_text.as_str());

        let mut messages: Vec<PromptMessage> = Vec::new();
        messages.push(
            PromptMessage {
                role: PromptMessageRole::Assistant,
                text: "I'll analyze the counter situation and suggest the best approach.".to_owned(),
            },
        );
        messages.push(PromptMessage { role: PromptMessageRole::User, text: question });
        GetPromptResult { description: Some(description), messages }
    }

    /// What the server can do: prompts, resources and tools.
    pub fn get_info(&self) -> (info: ServerInfo)
        ensures
            info.tells_all(),
    {
        ServerInfo {
            protocol_version: "2025-06-18".to_owned(),
            prompts: true,
            resources: true,
            tools: true,
            instructions: Some("This server provides counter tools and prompts.".to_owned()),
        }
    }

    /// The resources on offer.
    pub fn list_resources(&self) -> (resources: Vec<Resource>)
        ensures
            resources@.map_values(|r: Resource| r.uri@) == offered_uris(),
            resources@.map_values(|r: Resource| r.name@) == seq!["cwd"@, "memo-name"@],
    {
        let mut resources: Vec<Resource> = Vec::new();
        resources.push(self.create_resource_text("str:////Users/to/some/path/", "cwd"));
        resources.push(self.create_resource_text("memo://insights", "memo-name"));
        assert(resources@.map_values(|r: Resource| r.uri@) =~= offered_uris());
        assert(resources@.map_values(|r: Resource| r.name@) =~= seq!["cwd"@, "memo-name"@]);
        resources
    }

    /// The text of the resource with the given address, or an error that names
    /// the address.
    pub fn read_resource(&self, uri: String) -> (result: Result<ResourceContents, RpcError>)
        ensures
            match resource_text(uri@) {
                Some(text) => result matches Ok(contents) && contents.uri == uri
                    && contents.text@ == text,
                None => result matches Err(error) && error.code == RESOURCE_NOT_FOUND
                    && error.message@ == "resource_not_found"@ && (error.data matches Some(data)
                    && data@ == JsonView::Object(seq![("uri"@, JsonView::Text(uri@))])),
            },
    {
        if uri == "str:////Users/to/some/path/".to_owned() {
            Ok(ResourceContents { uri, text: "/Users/to/some/path/".to_owned() })
        } else if uri == "memo://insights".to_owned() {
            Ok(
                ResourceContents {
                    uri,
                    text: "Business Intelligence Memo\n\nAnalysis has revealed 5 key insights ...".to_owned(),
                },
            )
        } else {
            let mut data: Vec<Field> = Vec::new();
            data.push(Field { key: "uri".to_owned(), value: Json::Text(uri) });
            proof {
                lemma_object_tree(data);
                assert(members(data@) =~= seq![("uri"@, JsonView::Text(uri@))]);
            }
            Err(
                RpcError {
                    code: RESOURCE_NOT_FOUND,
                    message: "resource_not_found".to_owned(),
                    data: Some(Json::Object(data)),
                },
            )
        }
    }

    /// The templates of resources on offer: none.
    pub fn list_resource_templates(&self) -> (templates: Vec<Resource>)
        ensures
            templates@.len() == 0,
    {
        Vec::new()
    }

    /// What a client is told when it connects: what the server can do.
    pub fn initialize(&self) -> (info: ServerInfo)
        ensures
            info.tells_all(),
    {
        self.get_info()
    }
}

} // verus!
