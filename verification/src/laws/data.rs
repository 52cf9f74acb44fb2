//! Laws on the data that the library works on.

use vstd::prelude::*;

use crate::config::referents;
use crate::config::Expression;
use crate::config::ExtAuthz;
use crate::config::FailureMode;
use crate::config::Protocol;
use crate::ext_authz::McpExtAuthz;
use crate::headers::header_fields;
use crate::headers::select_names;
use crate::headers::HeaderOrPseudo;
use crate::json::duplicate_fields;
use crate::json::json_to_struct;
use crate::json::lemma_array_tree;
use crate::json::lemma_object_tree;
use crate::json::members;
use crate::json::Field;
use crate::json::Json;
use crate::json::JsonView;
use crate::json::NotAnObject;
use crate::json::Struct;
use crate::resource::ResourceId;
use crate::resource::ResourceType;
use crate::table::as_map;
use crate::table::lemma_entry_in_map;
use crate::table::lemma_names;
use crate::table::Table;
use crate::text::decimal;
use crate::text::decimal_text;
use http::HeaderMap;
use http::HeaderValue;

verus! {

/// The text of a number is its digits, most significant first, behind a minus
/// sign if it is negative.
pub proof fn numbers_are_written_in_decimal(n: int)
    ensures
        0 <= n < 10 ==> decimal(n).len() == 1 && decimal(n)[0] as int == '0' as int + n,
        n >= 10 ==> decimal(n).len() == decimal(n / 10).len() + 1 && decimal(n).drop_last()
            == decimal(n / 10) && decimal(n).last() as int == '0' as int + n % 10,
        n < 0 ==> decimal(n).len() > 0 && decimal(n)[0] == '-' && decimal(n).skip(1) == decimal(-n),
{
    reveal_strlit("0123456789");
    reveal_strlit("-");
    if n >= 10 {
        assert(decimal(n).drop_last() =~= decimal(n / 10));
    }
    if n < 0 {
        assert(decimal(n).skip(1) =~= decimal(-n));
    }
}

/// A number is written as its decimal text.
pub proof fn number_texts_are_decimal(n: i64, text: String)
    requires
        call_ensures(decimal_text, (n,), text),
    ensures
        text@ == decimal(n as int),
{
}

/// The tree of a value says what the value holds.
pub proof fn trees_say_what_values_hold(value: Json)
    ensures
        value is Null <==> value@ is Null,
        value matches Json::Bool(b) ==> value@ == JsonView::Bool(b),
        value matches Json::Number(text) ==> value@ == JsonView::Number(text@),
        value matches Json::Text(text) ==> value@ == JsonView::Text(text@),
        value matches Json::Array(items) ==> value@ is Array && value@->Array_0.len()
            == items@.len() && forall|i: int|
            0 <= i < items@.len() ==> #[trigger] value@->Array_0[i] == items@[i]@,
        value matches Json::Object(fields) ==> value@ is Object && value@->Object_0.len()
            == fields@.len() && forall|i: int|
            0 <= i < fields@.len() ==> #[trigger] value@->Object_0[i] == (
                fields@[i].key@,
                fields@[i].value@,
            ),
{
    if let Json::Array(items) = value {
        lemma_array_tree(items);
    }
    if let Json::Object(fields) = value {
        lemma_object_tree(fields);
    }
}

/// A copy has the tree of the value it was made of.
pub proof fn copies_are_equal(value: Json, copy: Json)
    requires
        call_ensures(Json::duplicate, (&value,), copy),
    ensures
        copy@ == value@,
{
}

/// Copied members have the keys and values of those they were made of, in order.
pub proof fn copied_members_are_equal(fields: Vec<Field>, copies: Vec<Field>)
    requires
        call_ensures(duplicate_fields, (&fields,), copies),
    ensures
        copies@.len() == fields@.len(),
        forall|i: int|
            0 <= i < fields@.len() ==> (#[trigger] copies@[i]).key@ == fields@[i].key@
                && copies@[i].value@ == fields@[i].value@,
{
    assert(members(copies@).len() == members(fields@).len());
    assert forall|i: int| 0 <= i < fields@.len() implies (#[trigger] copies@[i]).key@
        == fields@[i].key@ && copies@[i].value@ == fields@[i].value@ by {
        assert(members(copies@)[i] == members(fields@)[i]);
    }
}

/// Objects, and nothing else, have a `Struct` form, and it has their members.
pub proof fn objects_have_a_struct_form(value: Json, result: Result<Struct, NotAnObject>)
    requires
        call_ensures(json_to_struct, (value,), result),
    ensures
        result is Ok <==> value is Object,
        value matches Json::Object(fields) ==> (result matches Ok(pb) && pb.fields@.len()
            == fields@.len() && forall|i: int|
            0 <= i < fields@.len() ==> (#[trigger] pb.fields@[i]).key@ == fields@[i].key@
                && pb.fields@[i].value@ == fields@[i].value@),
{
    if let Json::Object(fields) = value {
        lemma_object_tree(fields);
        let pb = result->Ok_0;
        assert(members(pb.fields@) == members(fields@));
        assert(members(pb.fields@).len() == members(fields@).len());
        assert forall|i: int| 0 <= i < fields@.len() implies (#[trigger] pb.fields@[i]).key@
            == fields@[i].key@ && pb.fields@[i].value@ == fields@[i].value@ by {
            assert(members(pb.fields@)[i] == members(fields@)[i]);
        }
    }
}

/// A table maps exactly the names of its entries, each to the value of its entry.
pub proof fn tables_map_names_to_values<V>(table: Table<V>, key: Seq<char>, i: int)
    requires
        forall|a: int, b: int|
            0 <= a < b < table.listed().len() ==> (#[trigger] table.listed()[a]).0@ != (
            #[trigger] table.listed()[b]).0@,
    ensures
        table@.contains_key(key) <==> exists|k: int|
            0 <= k < table.listed().len() && (#[trigger] table.listed()[k]).0@ == key,
        0 <= i < table.listed().len() ==> table@.contains_key(table.listed()[i].0@)
            && table@[table.listed()[i].0@] == table.listed()[i].1,
{
    lemma_names(table.listed(), key);
    if 0 <= i < table.listed().len() {
        lemma_entry_in_map(table.listed(), i);
    }
}

/// The entries of a table are those that its map is made of, no name twice.
pub proof fn entries_are_those_of_the_table<V>(table: Table<V>, entries: &Vec<(String, V)>)
    requires
        call_ensures(Table::<V>::entries, (&table,), entries),
    ensures
        entries@ == table.listed(),
        as_map(entries@) == table@,
        forall|a: int, b: int|
            0 <= a < b < entries@.len() ==> (#[trigger] entries@[a]).0@ != (
            #[trigger] entries@[b]).0@,
{
}

/// What was stored last under a name is found under it, and nothing changes
/// under other names.
pub proof fn what_is_stored_is_found<V>(
    table: &mut Table<V>,
    key: String,
    value: V,
    after: Table<V>,
    name: &str,
    found: Option<&V>,
)
    requires
        call_ensures(Table::<V>::insert, (table, key, value), ()),
        *final(table) == after,
        call_ensures(Table::<V>::get, (&after, name), found),
    ensures
        name@ == key@ ==> found == Some(&value),
        name@ != key@ ==> (found is Some <==> old(table)@.contains_key(name@)),
        name@ != key@ && found is Some ==> *(found->0) == old(table)@[name@],
{
}

/// A new table holds nothing.
pub proof fn new_tables_are_empty<V>(
    table: Table<V>,
    other: Table<V>,
    name: &str,
    found: Option<&V>,
    empty: bool,
    known: bool,
)
    requires
        call_ensures(Table::<V>::new, (), table),
        call_ensures(<Table<V> as Default>::default, (), other),
        call_ensures(Table::<V>::get, (&table, name), found),
        call_ensures(Table::<V>::is_empty, (&table,), empty),
        call_ensures(Table::<V>::contains_key, (&table, name), known),
    ensures
        found is None,
        empty,
        !known,
        other@ == table@,
{
}

/// A table is empty exactly if no name is found in it.
pub proof fn empty_tables_hold_nothing<V>(
    table: Table<V>,
    name: &str,
    found: Option<&V>,
    empty: bool,
    known: bool,
)
    requires
        call_ensures(Table::<V>::get, (&table, name), found),
        call_ensures(Table::<V>::is_empty, (&table,), empty),
        call_ensures(Table::<V>::contains_key, (&table, name), known),
    ensures
        known <==> found is Some,
        found is Some ==> !empty,
        empty <==> table.listed().len() == 0,
{
    if table.listed().len() > 0 {
        assert(table@.contains_key(table.listed().last().0@));
    } else {
        assert(table@ =~= Map::empty());
    }
}

/// A copy of a table maps the same names to the same values.
pub proof fn copied_tables_are_equal(table: Table<String>, copy: Table<String>)
    requires
        call_ensures(Table::<String>::duplicate, (&table,), copy),
    ensures
        copy@ == table@,
{
}

/// The word for a kind of thing, and the thing, as told apart by the type.
pub proof fn things_have_parts(resource: ResourceType, parts: (&'static str, &ResourceId))
    requires
        call_ensures(ResourceType::parts, (&resource,), parts),
    ensures
        resource matches ResourceType::Tool(id) ==> parts.0@ == "tool"@ && *parts.1 == id,
        resource matches ResourceType::Prompt(id) ==> parts.0@ == "prompt"@ && *parts.1 == id,
        resource matches ResourceType::Resource(id) ==> parts.0@ == "resource"@ && *parts.1 == id,
{
}

/// The JSON form of a thing is an object with one member, by the word for its
/// kind, which holds its target and its name.
pub proof fn things_have_a_json_form(resource: ResourceType, value: Json)
    requires
        call_ensures(ResourceType::to_json, (&resource,), value),
    ensures
        value@ is Object,
        ({
            let (word, id) = match resource {
                ResourceType::Tool(id) => ("tool"@, id),
                ResourceType::Prompt(id) => ("prompt"@, id),
                ResourceType::Resource(id) => ("resource"@, id),
            };
            value@->Object_0 == seq![
                (
                    word,
                    JsonView::Object(
                        seq![
                            ("target"@, JsonView::Text(id.target@)),
                            ("name"@, JsonView::Text(id.name@)),
                        ],
                    ),
                ),
            ]
        }),
{
}

/// A thing has the target and the name that it was made of.
pub proof fn things_are_named(target: String, name: String, id: ResourceId)
    requires
        call_ensures(ResourceId::new, (target, name), id),
    ensures
        id.target == target,
        id.name == name,
{
}

/// An expression has the source text that it was made of.
pub proof fn expressions_have_a_source(source: &str, expression: Expression)
    requires
        call_ensures(Expression::new, (source,), expression),
    ensures
        expression.source@ == source@,
{
}

/// Unless configured otherwise, the service is asked over plain gRPC, shown all
/// headers and no body, and requests are refused when it cannot be asked.
pub proof fn default_configuration_refuses(config: ExtAuthz)
    requires
        call_ensures(<ExtAuthz as Default>::default, (), config),
    ensures
        config.failure_mode == FailureMode::Deny,
        config.protocol == (Protocol::Grpc { context: None, metadata: None }),
        config.include_request_headers@.len() == 0,
        config.include_request_body is None,
        config.target@.len() == 0,
{
}

/// The expressions told are exactly those that the configuration holds.
pub proof fn all_expressions_are_told(config: ExtAuthz, list: Vec<&Expression>, e: Expression)
    requires
        call_ensures(ExtAuthz::expressions, (&config,), list) || call_ensures(
            McpExtAuthz::expressions,
            (&McpExtAuthz(config),),
            list,
        ),
    ensures
        config.protocol matches Protocol::Grpc { metadata, .. } ==> ((exists|k: int|
            0 <= k < list@.len() && *(#[trigger] list@[k]) == e) <==> (metadata matches Some(table)
            && exists|i: int|
            0 <= i < table.listed().len() && (#[trigger] table.listed()[i]).1 == e)),
        config.protocol matches Protocol::Grpc { metadata, .. } ==> list@.len()
            == match metadata {
            Some(table) => table.listed().len(),
            None => 0,
        },
        config.protocol matches Protocol::Http {
            path,
            redirect,
            add_request_headers,
            metadata,
            ..
        } ==> ((exists|k: int| 0 <= k < list@.len() && *(#[trigger] list@[k]) == e) <==> path == Some(e) || redirect == Some(e) || (exists|
            i: int,
        |
            0 <= i < add_request_headers.listed().len() && (
            #[trigger] add_request_headers.listed()[i]).1 == e) || (metadata matches Some(table)
            && exists|i: int|
            0 <= i < table.listed().len() && (#[trigger] table.listed()[i]).1 == e)),
{
    let all = config.protocol.all_expressions();
    assert(referents(list@) == all);
    assert(referents(list@).len() == list@.len());
    if all.contains(e) {
        let k = choose|k: int| 0 <= k < all.len() && all[k] == e;
        assert(*list@[k] == e);
    }
    if exists|k: int| 0 <= k < list@.len() && *(#[trigger] list@[k]) == e {
        let k = choose|k: int| 0 <= k < list@.len() && *(#[trigger] list@[k]) == e;
        assert(all[k] == e);
    }
    match config.protocol {
        Protocol::Grpc { metadata, .. } => {
            lemma_optional_table(metadata, e);
        },
        Protocol::Http { path, redirect, add_request_headers, metadata, .. } => {
            lemma_optional_table(metadata, e);
            lemma_optional_table(Some(add_request_headers), e);
            let a = crate::config::optional_expression(path);
            let b = crate::config::optional_expression(redirect);
            let c = crate::config::table_expressions(add_request_headers.listed());
            let d = crate::config::optional_table(metadata);
            assert(path == Some(e) <==> a.contains(e)) by {
                if path is Some {
                    assert(a[0] == path->0);
                }
            }
            assert(redirect == Some(e) <==> b.contains(e)) by {
                if redirect is Some {
                    assert(b[0] == redirect->0);
                }
            }
            lemma_joined(a, b, e);
            lemma_joined(a + b, c, e);
            lemma_joined(a + b + c, d, e);
        },
    }
}

proof fn lemma_joined(a: Seq<Expression>, b: Seq<Expression>, e: Expression)
    ensures
        (a + b).contains(e) <==> a.contains(e) || b.contains(e),
{
    if a.contains(e) {
        let i = choose|i: int| 0 <= i < a.len() && a[i] == e;
        assert((a + b)[i] == e);
    }
    if b.contains(e) {
        let i = choose|i: int| 0 <= i < b.len() && b[i] == e;
        assert((a + b)[a.len() + i] == e);
    }
}

proof fn lemma_optional_table(table: Option<Table<Expression>>, e: Expression)
    ensures
        crate::config::optional_table(table).contains(e) <==> (table matches Some(t) && exists|
            i: int,
        |
            0 <= i < t.listed().len() && (#[trigger] t.listed()[i]).1 == e),
{
    if let Some(t) = table {
        let list = crate::config::optional_table(table);
        if list.contains(e) {
            let i = choose|i: int| 0 <= i < list.len() && list[i] == e;
            assert(t.listed()[i].1 == e);
        }
        if exists|i: int| 0 <= i < t.listed().len() && (#[trigger] t.listed()[i]).1 == e {
            let i = choose|i: int| 0 <= i < t.listed().len() && (#[trigger] t.listed()[i]).1 == e;
            assert(list[i] == e);
        }
    }
}

/// The names to show are exactly those that the configuration gives to ordinary
/// headers or, where it lists nothing, those of the request.
pub proof fn names_to_show_are_selected(
    listed: Vec<HeaderOrPseudo>,
    headers: HeaderMap<HeaderValue>,
    names: Vec<String>,
    name: Seq<char>,
)
    requires
        call_ensures(select_names, (&listed, &headers), names),
    ensures
        listed@.len() == 0 ==> (header_fields(headers).contains_key(name) <==> exists|i: int|
            0 <= i < names@.len() && (#[trigger] names@[i])@ == name),
        listed@.len() > 0 ==> ((exists|i: int|
            0 <= i < names@.len() && (#[trigger] names@[i])@ == name) <==> exists|text: String|
            text@ == name && #[trigger] listed@.contains(HeaderOrPseudo::Header(text))),
{
    if listed@.len() == 0 {
        let texts = crate::headers::texts(names@);
        if header_fields(headers).contains_key(name) {
            assert(texts.to_set().contains(name));
            let i = choose|i: int| 0 <= i < texts.len() && texts[i] == name;
            assert(names@[i]@ == name);
        }
        if exists|i: int| 0 <= i < names@.len() && (#[trigger] names@[i])@ == name {
            let i = choose|i: int| 0 <= i < names@.len() && (#[trigger] names@[i])@ == name;
            assert(texts[i] == name);
            assert(texts.to_set().contains(name));
        }
    } else {
        if exists|i: int| 0 <= i < names@.len() && (#[trigger] names@[i])@ == name {
            let i = choose|i: int| 0 <= i < names@.len() && (#[trigger] names@[i])@ == name;
            crate::headers::lemma_ordinary_names(listed@, i);
        }
        if exists|text: String|
            text@ == name && #[trigger] listed@.contains(HeaderOrPseudo::Header(text)) {
            let text = choose|text: String|
                text@ == name && #[trigger] listed@.contains(HeaderOrPseudo::Header(text));
            crate::headers::lemma_listed_name(listed@, text);
            let i = choose|i: int| 0 <= i < names@.len() && names@[i] == text;
            assert(names@[i]@ == name);
        }
    }
}

} // verus!
