//! The metadata that goes to the authorization service, and that comes back.

use vstd::prelude::*;

use crate::config::Expression;
use crate::json::duplicate_fields;
use crate::json::json_to_struct;
use crate::json::lemma_object_tree;
use crate::json::members;
use crate::json::Field;
use crate::json::Json;
use crate::json::JsonView;
use crate::json::Struct;
use crate::resource::ResourceType;
use crate::snapshot::RequestSnapshot;
use crate::table::as_map;
use crate::table::distinct;
use crate::table::Table;

verus! {

/// Metadata for the service: a `Struct` for each name.
#[derive(Debug)]
pub struct Metadata {
    pub filter_metadata: Table<Struct>,
}

/// The fields of each `Struct` in a map.
pub open spec fn struct_fields(map: Map<Seq<char>, Struct>) -> Map<
    Seq<char>,
    Seq<(Seq<char>, JsonView)>,
> {
    map.map_values(|pb: Struct| pb@)
}

impl View for Metadata {
    type V = Map<Seq<char>, Seq<(Seq<char>, JsonView)>>;

    open spec fn view(&self) -> Map<Seq<char>, Seq<(Seq<char>, JsonView)>> {
        struct_fields(self.filter_metadata@)
    }
}

/// What came of evaluating an expression.
#[derive(Debug)]
pub enum Evaluation {
    /// The expression could not be evaluated.
    Failed,
    /// Its value has no JSON form.
    NotJson,
    /// Its value, as JSON.
    Value(Json),
}

/// The name under which the claims of the token are sent.
pub open spec fn jwt_name() -> Seq<char> {
    "envoy.filters.http.jwt_authn"@
}

/// The name under which the thing asked for is sent.
pub open spec fn mcp_name() -> Seq<char> {
    "agentgateway.filters.mcp"@
}

/// What is sent where no expressions are configured: the claims of the token
/// and the thing asked for, as far as there are any.
pub open spec fn standard_metadata(
    snapshot: RequestSnapshot,
    mcp: Option<&ResourceType>,
) -> Map<Seq<char>, Seq<(Seq<char>, JsonView)>> {
    let claims = match snapshot.jwt {
        Some(claims) => Map::empty().insert(
            jwt_name(),
            seq![("jwt_payload"@, JsonView::Object(members(claims.inner@)))],
        ),
        None => Map::empty(),
    };
    match mcp {
        Some(resource) => claims.insert(mcp_name(), resource.json_members()),
        None => claims,
    }
}

/// What is sent where expressions are configured: the value of each expression
/// whose value is an object, under the expression's name.
pub open spec fn evaluated_metadata(
    expressions: Seq<(String, Expression)>,
    outcomes: Seq<Evaluation>,
) -> Map<Seq<char>, Seq<(Seq<char>, JsonView)>>
    decreases expressions.len(),
{
    if expressions.len() == 0 {
        Map::empty()
    } else {
        let earlier = evaluated_metadata(expressions.drop_last(), outcomes.drop_last());
        match outcomes.last() {
            Evaluation::Value(value) if value@ is Object => earlier.insert(
                expressions.last().0@,
                value@->Object_0,
            ),
            _ => earlier,
        }
    }
}

/// Whether metadata is what `eval` makes of the expressions, each evaluated
/// with the snapshot and the thing asked for.
pub open spec fn evaluated_by<
    E: Fn(&Expression, &RequestSnapshot, Option<&ResourceType>) -> Evaluation,
>(
    eval: E,
    expressions: Seq<(String, Expression)>,
    snapshot: &RequestSnapshot,
    mcp: Option<&ResourceType>,
    metadata: Map<Seq<char>, Seq<(Seq<char>, JsonView)>>,
) -> bool {
    exists|outcomes: Seq<Evaluation>| #[trigger]
        evaluated_metadata(expressions, outcomes) == metadata && outcomes.len() == expressions.len()
            && forall|i: int|
            0 <= i < expressions.len() ==> call_ensures(
                eval,
                (&expressions[i].1, snapshot, mcp),
                #[trigger] outcomes[i],
            )
}

/// Whether metadata is what goes to the service with a request.
pub open spec fn metadata_built<
    E: Fn(&Expression, &RequestSnapshot, Option<&ResourceType>) -> Evaluation,
>(
    eval: E,
    expressions: Option<Table<Expression>>,
    snapshot: &RequestSnapshot,
    mcp: Option<&ResourceType>,
    metadata: Option<Metadata>,
) -> bool {
    match expressions {
        Some(table) => metadata matches Some(sent) && evaluated_by(
            eval,
            table.listed(),
            snapshot,
            mcp,
            sent@,
        ),
        None => match metadata {
            Some(sent) => sent@ == standard_metadata(*snapshot, mcp) && (snapshot.jwt is Some
                || mcp is Some),
            None => snapshot.jwt is None && mcp is None,
        },
    }
}

/// The metadata that goes to the service with a request. Where expressions are
/// configured, it is made of their values alone; an expression whose value is
/// no object adds nothing. Otherwise it tells the claims of the token and the
/// thing asked for, and there is none if there is neither.
pub fn build_metadata_from_snapshot<
    E: Fn(&Expression, &RequestSnapshot, Option<&ResourceType>) -> Evaluation,
>(
    metadata: &Option<Table<Expression>>,
    snapshot: &RequestSnapshot,
    mcp: Option<&ResourceType>,
    eval: E,
) -> (result: Option<Metadata>)
    requires
        forall|e: &Expression| call_requires(eval, (e, snapshot, mcp)),
    ensures
        metadata_built(eval, *metadata, snapshot, mcp, result),
{
    match metadata {
        Some(table) => {
            let expressions = table.entries();
            let ghost mut outcomes: Seq<Evaluation> = Seq::empty();
            let mut filter_metadata: Table<Struct> = Table::new();
            assert(struct_fields(filter_metadata@) =~= Map::empty());
            for i in 0..expressions.len()
                invariant
                    forall|e: &Expression| call_requires(eval, (e, snapshot, mcp)),
                    outcomes.len() == i,
                    struct_fields(filter_metadata@) == evaluated_metadata(
                        expressions@.take(i as int),
                        outcomes,
                    ),
                    forall|j: int|
                        0 <= j < i ==> call_ensures(
                            eval,
                            (&expressions@[j].1, snapshot, mcp),
                            #[trigger] outcomes[j],
                        ),
            {
                let outcome = eval(&expressions[i].1, snapshot, mcp);
                proof {
                    let before = outcomes;
                    outcomes = outcomes.push(outcome);
                    assert(outcomes.drop_last() =~= before);
                    assert(expressions@.take(i + 1).drop_last() =~= expressions@.take(i as int));
                }
                if let Evaluation::Value(value) = outcome {
                    if let Ok(pb) = json_to_struct(value) {
                        insert_struct(&mut filter_metadata, expressions[i].0.clone(), pb);
                    }
                }
            }
            assert(expressions@.take(expressions@.len() as int) =~= expressions@);
            assert(evaluated_metadata(expressions@, outcomes) == struct_fields(filter_metadata@));
            Some(Metadata { filter_metadata })
        },
        None => {
            let mut filter_metadata: Table<Struct> = Table::new();
            assert(struct_fields(filter_metadata@) =~= Map::empty());
            if let Some(claims) = &snapshot.jwt {
                if let Ok(pb) = json_to_struct(jwt_payload(&claims.inner)) {
                    insert_struct(
                        &mut filter_metadata,
                        "envoy.filters.http.jwt_authn".to_owned(),
                        pb,
                    );
                }
            }
            if let Some(resource) = mcp {
                if let Ok(pb) = json_to_struct(resource.to_json()) {
                    insert_struct(&mut filter_metadata, "agentgateway.filters.mcp".to_owned(), pb);
                }
            }
            assert(struct_fields(filter_metadata@) =~= standard_metadata(*snapshot, mcp));
            if filter_metadata.is_empty() {
                assert(!standard_metadata(*snapshot, mcp).contains_key(jwt_name()));
                assert(!standard_metadata(*snapshot, mcp).contains_key(mcp_name()));
                None
            } else {
                assert(snapshot.jwt is None && mcp is None ==> filter_metadata@ =~= Map::empty());
                Some(Metadata { filter_metadata })
            }
        },
    }
}

/// Stores a `Struct` under a name.
fn insert_struct(table: &mut Table<Struct>, key: String, pb: Struct)
    ensures
        struct_fields(final(table)@) == struct_fields(old(table)@).insert(key@, pb@),
{
    table.insert(key, pb);
    assert(struct_fields(table@) =~= struct_fields(old(table)@).insert(key@, pb@));
}

/// The claims of a token as the service gets them.
fn jwt_payload(claims: &Vec<Field>) -> (value: Json)
    ensures
        value@ == JsonView::Object(seq![("jwt_payload"@, JsonView::Object(members(claims@)))]),
{
    let inner = duplicate_fields(claims);
    proof {
        lemma_object_tree(inner);
    }
    let mut outer: Vec<Field> = Vec::new();
    outer.push(Field { key: "jwt_payload".to_owned(), value: Json::Object(inner) });
    proof {
        lemma_object_tree(outer);
        assert(members(outer@) =~= seq![("jwt_payload"@, JsonView::Object(members(claims@)))]);
    }
    Json::Object(outer)
}

/// Metadata that an authorization service sent back, for later decisions.
#[derive(Debug)]
pub struct ExtAuthzDynamicMetadata(pub Table<Json>);

/// The trees of the values in a map.
pub open spec fn value_trees(map: Map<Seq<char>, Json>) -> Map<Seq<char>, JsonView> {
    map.map_values(|value: Json| value@)
}

impl View for ExtAuthzDynamicMetadata {
    type V = Map<Seq<char>, JsonView>;

    open spec fn view(&self) -> Map<Seq<char>, JsonView> {
        value_trees(self.0@)
    }
}

/// A field of the metadata that the service sent back.
#[derive(Debug)]
pub struct DynamicField {
    pub key: String,
    /// The JSON form of the field's value, if it has one.
    pub value: Option<Json>,
}

/// What the fields amount to; a field without a JSON form is left out.
pub open spec fn readable_fields(fields: Seq<DynamicField>) -> Map<Seq<char>, JsonView>
    decreases fields.len(),
{
    if fields.len() == 0 {
        Map::empty()
    } else {
        let earlier = readable_fields(fields.drop_last());
        match fields.last().value {
            Some(value) => earlier.insert(fields.last().key@, value@),
            None => earlier,
        }
    }
}

/// What metadata the service sent back: none if no field can be read.
pub open spec fn dynamic_metadata_read(
    fields: Option<Seq<DynamicField>>,
    metadata: Option<ExtAuthzDynamicMetadata>,
) -> bool {
    match fields {
        Some(fields) => match metadata {
            Some(read) => read@ == readable_fields(fields) && readable_fields(fields)
                != Map::<Seq<char>, JsonView>::empty(),
            None => readable_fields(fields) == Map::<Seq<char>, JsonView>::empty(),
        },
        None => metadata is None,
    }
}

/// Reads the metadata that the service sent back. Fields without a JSON form
/// are left out, and without any field left there is no metadata.
pub fn read_dynamic_metadata(fields: Option<Vec<DynamicField>>) -> (metadata: Option<
    ExtAuthzDynamicMetadata,
>)
    ensures
        dynamic_metadata_read(
            match fields {
                Some(list) => Some(list@),
                None => None,
            },
            metadata,
        ),
{
    let list = match fields {
        Some(list) => list,
        None => return None,
    };
    let ghost all = list@;
    let mut table: Table<Json> = Table::new();
    assert(value_trees(table@) =~= Map::empty());
    for field in iter: list
        invariant
            iter.seq() == all,
            value_trees(table@) == readable_fields(all.take(iter.index())),
    {
        let ghost before = table@;
        assert(all.take(iter.index() + 1).drop_last() =~= all.take(iter.index()));
        if let Some(value) = field.value {
            table.insert(field.key, value);
            assert(value_trees(table@) =~= value_trees(before).insert(field.key@, value@));
        }
    }
    assert(all.take(all.len() as int) =~= all);
    if table.is_empty() {
        assert(value_trees(table@) =~= Map::empty());
        None
    } else {
        proof {
            assert(value_trees(table@).dom() =~= table@.dom());
            if value_trees(table@) == Map::<Seq<char>, JsonView>::empty() {
                assert(table@ =~= Map::empty());
            }
        }
        Some(ExtAuthzDynamicMetadata(table))
    }
}

/// What the metadata of the route and that of the backend come to together: all
/// that either says, and where both speak, what the backend's says.
pub open spec fn merged(
    route: Option<&ExtAuthzDynamicMetadata>,
    backend: &ExtAuthzDynamicMetadata,
) -> Map<Seq<char>, JsonView> {
    match route {
        Some(level) => level@.union_prefer_right(backend@),
        None => backend@,
    }
}

impl ExtAuthzDynamicMetadata {
    /// Stores copies of the other's entries, each in place of an entry of its name.
    fn overlay(&mut self, other: &ExtAuthzDynamicMetadata)
        ensures
            final(self)@ == old(self)@.union_prefer_right(other@),
    {
        let entries = other.0.entries();
        proof {
            lemma_overlay_nothing(self@, value_trees(as_map(entries@.take(0))));
        }
        for i in 0..entries.len()
            invariant
                entries@ == other.0.listed(),
                self@ == old(self)@.union_prefer_right(
                    value_trees(as_map(entries@.take(i as int))),
                ),
        {
            let ghost before = self.0@;
            let ghost known = as_map(entries@.take(i as int));
            self.0.insert(entries[i].0.clone(), entries[i].1.duplicate());
            proof {
                let (key, value) = entries@[i as int];
                assert(entries@.take(i + 1).drop_last() =~= entries@.take(i as int));
                assert(as_map(entries@.take(i + 1)) == known.insert(key@, value));
                assert(value_trees(known.insert(key@, value)) =~= value_trees(known).insert(
                    key@,
                    value@,
                ));
                assert(self@ =~= value_trees(before).insert(key@, value@));
                assert(self@ =~= old(self)@.union_prefer_right(
                    value_trees(as_map(entries@.take(i + 1))),
                ));
            }
        }
        assert(entries@.take(entries@.len() as int) =~= entries@);
    }

    /// The metadata of a backend's authorization together with that of the
    /// route's, if there was one. The backend's takes precedence.
    pub fn merge_levels(
        route: Option<&ExtAuthzDynamicMetadata>,
        backend: &ExtAuthzDynamicMetadata,
    ) -> (result: ExtAuthzDynamicMetadata)
        ensures
            result@ == merged(route, backend),
    {
        let mut result = ExtAuthzDynamicMetadata(Table::new());
        assert(result@ =~= Map::empty());
        if let Some(level) = route {
            result.overlay(level);
            assert(result@ =~= level@);
        }
        result.overlay(backend);
        assert(result@ =~= merged(route, backend));
        result
    }
}

proof fn lemma_overlay_nothing(map: Map<Seq<char>, JsonView>, nothing: Map<Seq<char>, JsonView>)
    requires
        nothing.dom() =~= Set::<Seq<char>>::empty(),
    ensures
        map == map.union_prefer_right(nothing),
{
    assert(map =~= map.union_prefer_right(nothing));
}

/// Merging loses nothing that only one level says, and the backend's level
/// prevails where both speak.
pub proof fn backend_level_prevails(
    route: ExtAuthzDynamicMetadata,
    backend: ExtAuthzDynamicMetadata,
    name: Seq<char>,
)
    ensures
        merged(Some(&route), &backend).contains_key(name) <==> route@.contains_key(name)
            || backend@.contains_key(name),
        backend@.contains_key(name) ==> merged(Some(&route), &backend)[name] == backend@[name],
        route@.contains_key(name) && !backend@.contains_key(name) ==> merged(
            Some(&route),
            &backend,
        )[name] == route@[name],
{
}

/// Of the metadata that the service sends back, a field is read exactly if it
/// has a JSON form: one that has none takes no other with it.
pub proof fn fields_with_json_forms_are_read(fields: Seq<DynamicField>)
    requires
        forall|i: int, j: int|
            0 <= i < j < fields.len() ==> (#[trigger] fields[i]).key@ != (#[trigger] fields[j]).key@,
    ensures
        forall|i: int|
            0 <= i < fields.len() ==> match fields[i].value {
                Some(value) => readable_fields(fields).contains_pair(
                    (#[trigger] fields[i]).key@,
                    value@,
                ),
                None => !readable_fields(fields).contains_key(fields[i].key@),
            },
        forall|name: Seq<char>| #[trigger]
            readable_fields(fields).contains_key(name) ==> exists|i: int|
                0 <= i < fields.len() && (#[trigger] fields[i]).key@ == name,
    decreases fields.len(),
{
    if fields.len() > 0 {
        let front = fields.drop_last();
        let last = fields.len() - 1;
        assert(forall|i: int| 0 <= i < last ==> #[trigger] front[i] == fields[i]);
        fields_with_json_forms_are_read(front);
        let earlier = readable_fields(front);
        assert(!earlier.contains_key(fields[last].key@)) by {
            if earlier.contains_key(fields[last].key@) {
                let i = choose|i: int|
                    0 <= i < front.len() && (#[trigger] front[i]).key@ == fields[last].key@;
                assert(fields[i].key@ == fields[last].key@);
            }
        }
        assert forall|i: int| 0 <= i < fields.len() implies match fields[i].value {
            Some(value) => readable_fields(fields).contains_pair(
                (#[trigger] fields[i]).key@,
                value@,
            ),
            None => !readable_fields(fields).contains_key(fields[i].key@),
        } by {
            if i < last {
                assert(front[i] == fields[i]);
                assert(fields[i].key@ != fields[last].key@);
            }
        }
        assert forall|name: Seq<char>| #[trigger]
            readable_fields(fields).contains_key(name) implies exists|i: int|
            0 <= i < fields.len() && (#[trigger] fields[i]).key@ == name by {
            if earlier.contains_key(name) {
                let i = choose|i: int| 0 <= i < front.len() && (#[trigger] front[i]).key@ == name;
                assert(fields[i].key@ == name);
            } else {
                assert(fields[last].key@ == name);
            }
        }
    }
}

/// What an expression's value adds to the metadata, if it adds anything.
pub open spec fn object_members(outcome: Evaluation) -> Option<Seq<(Seq<char>, JsonView)>> {
    match outcome {
        Evaluation::Value(value) if value@ is Object => Some(value@->Object_0),
        _ => None,
    }
}

/// With expressions configured, the metadata has an entry for an expression
/// exactly if its value is an object, the entry is that value, and there are
/// no entries besides.
pub proof fn expressions_with_object_values_are_sent(
    expressions: Seq<(String, Expression)>,
    outcomes: Seq<Evaluation>,
)
    requires
        distinct(expressions),
        outcomes.len() == expressions.len(),
    ensures
        forall|i: int|
            0 <= i < expressions.len() ==> match object_members(outcomes[i]) {
                Some(sent) => evaluated_metadata(expressions, outcomes).contains_pair(
                    (#[trigger] expressions[i]).0@,
                    sent,
                ),
                None => !evaluated_metadata(expressions, outcomes).contains_key(
                    expressions[i].0@,
                ),
            },
        forall|name: Seq<char>| #[trigger]
            evaluated_metadata(expressions, outcomes).contains_key(name) ==> exists|i: int|
                0 <= i < expressions.len() && (#[trigger] expressions[i]).0@ == name,
    decreases expressions.len(),
{
    if expressions.len() > 0 {
        let front = expressions.drop_last();
        let last = expressions.len() - 1;
        assert(forall|i: int| 0 <= i < last ==> #[trigger] front[i] == expressions[i]);
        expressions_with_object_values_are_sent(front, outcomes.drop_last());
        let earlier = evaluated_metadata(front, outcomes.drop_last());
        assert(!earlier.contains_key(expressions[last].0@)) by {
            if earlier.contains_key(expressions[last].0@) {
                let i = choose|i: int|
                    0 <= i < front.len() && (#[trigger] front[i]).0@ == expressions[last].0@;
                assert(expressions[i].0@ == expressions[last].0@);
            }
        }
        assert forall|i: int| 0 <= i < expressions.len() implies match object_members(outcomes[i]) {
            Some(sent) => evaluated_metadata(expressions, outcomes).contains_pair(
                (#[trigger] expressions[i]).0@,
                sent,
            ),
            None => !evaluated_metadata(expressions, outcomes).contains_key(expressions[i].0@),
        } by {
            if i < last {
                assert(front[i] == expressions[i]);
                assert(outcomes.drop_last()[i] == outcomes[i]);
                assert(expressions[i].0@ != expressions[last].0@);
            }
        }
        assert forall|name: Seq<char>| #[trigger]
            evaluated_metadata(expressions, outcomes).contains_key(name) implies exists|i: int|
            0 <= i < expressions.len() && (#[trigger] expressions[i]).0@ == name by {
            if earlier.contains_key(name) {
                let i = choose|i: int| 0 <= i < front.len() && (#[trigger] front[i]).0@ == name;
                assert(expressions[i].0@ == name);
            } else {
                assert(expressions[last].0@ == name);
            }
        }
    }
}

/// The two names of the standard metadata differ.
pub proof fn standard_names_differ()
    ensures
        jwt_name() != mcp_name(),
{
    reveal_strlit("envoy.filters.http.jwt_authn");
    reveal_strlit("agentgateway.filters.mcp");
    assert(jwt_name()[0] == 'e' && mcp_name()[0] == 'a');
}

/// Without expressions configured, the claims of the token are sent exactly if
/// there is a token, the thing asked for exactly if there is one, each under
/// its own name, and nothing besides.
pub proof fn standard_metadata_tells_claims_and_resource(
    snapshot: RequestSnapshot,
    mcp: Option<&ResourceType>,
)
    ensures
        standard_metadata(snapshot, mcp).contains_key(jwt_name()) <==> snapshot.jwt is Some,
        snapshot.jwt matches Some(claims) ==> standard_metadata(snapshot, mcp)[jwt_name()]
            == seq![("jwt_payload"@, JsonView::Object(members(claims.inner@)))],
        standard_metadata(snapshot, mcp).contains_key(mcp_name()) <==> mcp is Some,
        mcp matches Some(resource) ==> standard_metadata(snapshot, mcp)[mcp_name()]
            == resource.json_members(),
        forall|name: Seq<char>| #[trigger]
            standard_metadata(snapshot, mcp).contains_key(name) ==> name == jwt_name() || name
                == mcp_name(),
{
    standard_names_differ();
}

} // verus!
