//! What a request of the Model Context Protocol is about.

use vstd::prelude::*;

use crate::json::lemma_object_tree;
use crate::json::members;
use crate::json::Field;
use crate::json::Json;
use crate::json::JsonView;

verus! {

/// A named thing that a server offers.
#[derive(Debug, PartialEq)]
pub struct ResourceId {
    /// The server.
    pub target: String,
    /// The name by which the server knows it.
    pub name: String,
}

impl ResourceId {
    pub fn new(target: String, name: String) -> (id: ResourceId)
        ensures
            id.target == target,
            id.name == name,
    {
        ResourceId { target, name }
    }
}

/// A tool, a prompt or a resource.
#[derive(Debug, PartialEq)]
pub enum ResourceType {
    Tool(ResourceId),
    Prompt(ResourceId),
    Resource(ResourceId),
}

impl ResourceType {
    /// The word for the kind of thing.
    pub open spec fn kind(self) -> Seq<char> {
        match self {
            ResourceType::Tool(_) => "tool"@,
            ResourceType::Prompt(_) => "prompt"@,
            ResourceType::Resource(_) => "resource"@,
        }
    }

    /// The thing itself.
    pub open spec fn id(self) -> ResourceId {
        match self {
            ResourceType::Tool(id) => id,
            ResourceType::Prompt(id) => id,
            ResourceType::Resource(id) => id,
        }
    }

    /// The members of the JSON object for the thing: its kind, with its target
    /// and its name.
    pub open spec fn json_members(self) -> Seq<(Seq<char>, JsonView)> {
        seq![
            (
                self.kind(),
                JsonView::Object(
                    seq![
                        ("target"@, JsonView::Text(self.id().target@)),
                        ("name"@, JsonView::Text(self.id().name@)),
                    ],
                ),
            ),
        ]
    }

    /// The word for the kind of thing, and the thing.
    pub fn parts(&self) -> (result: (&'static str, &ResourceId))
        ensures
            result.0@ == self.kind(),
            *result.1 == self.id(),
    {
        match self {
            ResourceType::Tool(id) => ("tool", id),
            ResourceType::Prompt(id) => ("prompt", id),
            ResourceType::Resource(id) => ("resource", id),
        }
    }

    /// The thing as a JSON object, such as
    /// `{"tool": {"target": "server", "name": "echo"}}`.
    pub fn to_json(&self) -> (value: Json)
        ensures
            value@ == JsonView::Object(self.json_members()),
    {
        let (kind, id) = self.parts();
        let mut inner: Vec<Field> = Vec::new();
        inner.push(Field { key: "target".to_owned(), value: Json::Text(id.target.clone()) });
        inner.push(Field { key: "name".to_owned(), value: Json::Text(id.name.clone()) });
        proof {
            lemma_object_tree(inner);
            assert(members(inner@) =~= self.json_members()[0].1->Object_0);
        }
        let mut outer: Vec<Field> = Vec::new();
        outer.push(Field { key: kind.to_owned(), value: Json::Object(inner) });
        proof {
            lemma_object_tree(outer);
            assert(members(outer@) =~= self.json_members());
        }
        Json::Object(outer)
    }
}

/// The three kinds of thing go by different words.
pub proof fn kinds_differ()
    ensures
        "tool"@ != "prompt"@,
        "tool"@ != "resource"@,
        "prompt"@ != "resource"@,
{
    reveal_strlit("tool");
    reveal_strlit("prompt");
    reveal_strlit("resource");
    assert("tool"@.len() == 4 && "prompt"@.len() == 6 && "resource"@.len() == 8);
}

/// Two things with the same JSON form are of the same kind and have the same
/// target and name: the service can tell any two apart.
pub proof fn json_tells_resources_apart(a: ResourceType, b: ResourceType)
    requires
        a.json_members() == b.json_members(),
    ensures
        a is Tool <==> b is Tool,
        a is Prompt <==> b is Prompt,
        a is Resource <==> b is Resource,
        a.id().target@ == b.id().target@,
        a.id().name@ == b.id().name@,
{
    kinds_differ();
    assert(a.json_members()[0] == b.json_members()[0]);
    let inner_a = a.json_members()[0].1->Object_0;
    let inner_b = b.json_members()[0].1->Object_0;
    assert(inner_a[0] == inner_b[0]);
    assert(inner_a[1] == inner_b[1]);
}

} // verus!
