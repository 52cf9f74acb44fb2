//! JSON values as plain trees, and the protobuf `Struct` form of an object.

use vstd::prelude::*;

verus! {

/// A JSON value. The members of an object are in order, and `==` minds it. That
/// no member occurs twice, and that a number's text is one, is up to the maker.
#[derive(Debug, PartialEq)]
pub enum Json {
    Null,
    Bool(bool),
    /// A number, in the text form that JSON gives it.
    Number(String),
    Text(String),
    Array(Vec<Json>),
    Object(Vec<Field>),
}

/// One member of a JSON object.
#[derive(Debug, PartialEq)]
pub struct Field {
    pub key: String,
    pub value: Json,
}

/// The mathematical form of a [`Json`] value.
pub enum JsonView {
    Null,
    Bool(bool),
    Number(Seq<char>),
    Text(Seq<char>),
    Array(Seq<JsonView>),
    Object(Seq<(Seq<char>, JsonView)>),
}

impl Json {
    /// The tree that a value stands for.
    pub open spec fn tree(self) -> JsonView
        decreases self,
    {
        match self {
            Json::Null => JsonView::Null,
            Json::Bool(b) => JsonView::Bool(b),
            Json::Number(n) => JsonView::Number(n@),
            Json::Text(t) => JsonView::Text(t@),
            Json::Array(items) => JsonView::Array(
                Seq::new(
                    items@.len(),
                    |i: int|
                        if 0 <= i < items@.len() {
                            items@[i].tree()
                        } else {
                            JsonView::Null
                        },
                ),
            ),
            Json::Object(fields) => JsonView::Object(
                Seq::new(
                    fields@.len(),
                    |i: int|
                        if 0 <= i < fields@.len() {
                            (fields@[i].key@, fields@[i].value.tree())
                        } else {
                            (Seq::empty(), JsonView::Null)
                        },
                ),
            ),
        }
    }
}

impl View for Json {
    type V = JsonView;

    open spec fn view(&self) -> JsonView {
        self.tree()
    }
}

/// The members of an object, in order.
pub open spec fn members(fields: Seq<Field>) -> Seq<(Seq<char>, JsonView)> {
    Seq::new(fields.len(), |i: int| (fields[i].key@, fields[i].value@))
}

/// The trees of a list of values, in order.
pub open spec fn trees(items: Seq<Json>) -> Seq<JsonView> {
    Seq::new(items.len(), |i: int| items[i]@)
}

/// The tree of an array is made of the trees of its items.
pub proof fn lemma_array_tree(items: Vec<Json>)
    ensures
        Json::Array(items)@ == JsonView::Array(trees(items@)),
{
    assert(Json::Array(items)@->Array_0 =~= trees(items@));
}

/// The tree of an object is made of its members.
pub proof fn lemma_object_tree(fields: Vec<Field>)
    ensures
        Json::Object(fields)@ == JsonView::Object(members(fields@)),
{
    assert(Json::Object(fields)@->Object_0 =~= members(fields@));
}

impl Json {
    /// An equal value that shares nothing with this one.
    pub fn duplicate(&self) -> (result: Json)
        ensures
            result@ == self@,
        decreases *self,
    {
        match self {
            Json::Null => Json::Null,
            Json::Bool(b) => Json::Bool(*b),
            Json::Number(n) => Json::Number(n.clone()),
            Json::Text(t) => Json::Text(t.clone()),
            Json::Array(items) => {
                let copied = duplicate_items(items);
                proof {
                    lemma_array_tree(copied);
                    lemma_array_tree(*items);
                }
                Json::Array(copied)
            },
            Json::Object(fields) => {
                let copied = duplicate_fields(fields);
                proof {
                    lemma_object_tree(copied);
                    lemma_object_tree(*fields);
                }
                Json::Object(copied)
            },
        }
    }
}

/// The same values in the same order, sharing nothing with the given ones.
fn duplicate_items(items: &Vec<Json>) -> (result: Vec<Json>)
    ensures
        trees(result@) == trees(items@),
    decreases *items,
{
    let mut copied: Vec<Json> = Vec::new();
    for i in 0..items.len()
        invariant
            copied@.len() == i,
            forall|j: int| 0 <= j < i ==> (#[trigger] copied@[j])@ == items@[j]@,
    {
        copied.push(items[i].duplicate());
    }
    assert(trees(copied@) =~= trees(items@));
    copied
}

/// The same members in the same order, sharing nothing with the given ones.
pub fn duplicate_fields(fields: &Vec<Field>) -> (result: Vec<Field>)
    ensures
        members(result@) == members(fields@),
    decreases *fields,
{
    let mut copied: Vec<Field> = Vec::new();
    for i in 0..fields.len()
        invariant
            copied@.len() == i,
            forall|j: int|
                0 <= j < i ==> (#[trigger] copied@[j]).key@ == fields@[j].key@ && copied@[j].value@
                    == fields@[j].value@,
    {
        let field = &fields[i];
        copied.push(Field { key: field.key.clone(), value: field.value.duplicate() });
    }
    assert(members(copied@) =~= members(fields@));
    copied
}

/// A protobuf `Struct`: the fields of an object.
#[derive(Debug, PartialEq)]
pub struct Struct {
    pub fields: Vec<Field>,
}

impl View for Struct {
    type V = Seq<(Seq<char>, JsonView)>;

    open spec fn view(&self) -> Seq<(Seq<char>, JsonView)> {
        members(self.fields@)
    }
}

/// A JSON value that is not an object has no `Struct` form.
#[derive(Debug, PartialEq)]
pub struct NotAnObject;

/// The `Struct` form of a JSON value. A `Struct` is made of named fields, so
/// objects have one and no other value does.
pub fn json_to_struct(value: Json) -> (result: Result<Struct, NotAnObject>)
    ensures
        result is Ok <==> value@ is Object,
        result matches Ok(pb) ==> value@ == JsonView::Object(pb@),
{
    match value {
        Json::Object(fields) => {
            proof {
                lemma_object_tree(fields);
            }
            Ok(Struct { fields })
        },
        _ => Err(NotAnObject),
    }
}

} // verus!
