//! Header maps, and which headers of a request are shown to the service.

use http::HeaderMap;
use http::HeaderValue;
use vstd::prelude::*;

use crate::table::Table;

verus! {

/// `http::HeaderMap`, a multimap from header names to values.
#[verifier::external_type_specification]
#[verifier::external_body]
#[verifier::reject_recursive_types(T)]
pub struct ExHeaderMap<T>(http::HeaderMap<T>);

/// `http::HeaderValue`, the bytes of one header value.
#[verifier::external_type_specification]
#[verifier::external_body]
pub struct ExHeaderValue(http::HeaderValue);

/// The headers that a map holds: for each name the values stored under it, in
/// order. Names are in the lower case in which `http` keeps them.
pub uninterp spec fn header_fields(map: HeaderMap<HeaderValue>) -> Map<Seq<char>, Seq<Seq<u8>>>;

/// Whether a map holds no header.
pub open spec fn is_empty(map: HeaderMap<HeaderValue>) -> bool {
    header_fields(map) == Map::<Seq<char>, Seq<Seq<u8>>>::empty()
}

/// Calls `http::HeaderMap::new`, which makes a map without headers.
#[verifier::external_body]
pub(crate) fn no_headers() -> (made: HeaderMap<HeaderValue>)
    ensures
        is_empty(made),
{
    HeaderMap::new()
}

/// The texts of a list of strings.
pub open spec fn texts(strings: Seq<String>) -> Seq<Seq<char>> {
    strings.map_values(|s: String| s@)
}

/// Calls `http::HeaderMap::keys`, which yields each name in the map once, in an
/// order that is the map's own.
#[verifier::external_body]
fn header_names(map: &HeaderMap<HeaderValue>) -> (names: Vec<String>)
    ensures
        texts(names@).no_duplicates(),
        texts(names@).to_set() == header_fields(*map).dom(),
{
    map.keys().map(|name| name.as_str().to_owned()).collect()
}

/// Whether a text is a header name that looks the same in every form: at most
/// 64 lower-case letters, digits and hyphens, and at least one.
pub open spec fn is_plain_name(text: Seq<char>) -> bool {
    &&& 0 < text.len() <= 64
    &&& forall|i: int|
        0 <= i < text.len() ==> ('a' <= #[trigger] text[i] <= 'z' || '0' <= text[i] <= '9'
            || text[i] == '-')
}

/// Calls `http::HeaderMap::get` with a plain name. It finds the first of the
/// values under the name, and finds none if the name is not in the map. Other
/// names are left out: `get` refuses some that a map can hold, and reads some
/// as names other than their own.
#[verifier::external_body]
pub(crate) fn first_value(map: &HeaderMap<HeaderValue>, name: &str) -> (found: Option<Vec<u8>>)
    requires
        is_plain_name(name@),
    ensures
        found is Some <==> header_fields(*map).contains_key(name@),
        found matches Some(value) ==> header_fields(*map)[name@].len() > 0 && value@
            == header_fields(*map)[name@][0],
{
    map.get(name).map(|value| value.as_bytes().to_vec())
}

/// A header to show to the service, as the configuration names it.
#[derive(Debug, PartialEq)]
pub enum HeaderOrPseudo {
    /// An ordinary header, by its name.
    Header(String),
    /// A pseudo header such as `:path`.
    Pseudo(String),
}

/// The names of the ordinary headers in a list, in order.
pub open spec fn ordinary_names(specs: Seq<HeaderOrPseudo>) -> Seq<String>
    decreases specs.len(),
{
    if specs.len() == 0 {
        Seq::empty()
    } else {
        match specs.last() {
            HeaderOrPseudo::Header(name) => ordinary_names(specs.drop_last()).push(name),
            HeaderOrPseudo::Pseudo(_) => ordinary_names(specs.drop_last()),
        }
    }
}

/// Whether these are the names of the headers to show: those that the
/// configuration lists, or, if it lists nothing at all, each name that occurs
/// in the request once.
pub open spec fn selected(
    listed: Seq<HeaderOrPseudo>,
    headers: HeaderMap<HeaderValue>,
    names: Seq<String>,
) -> bool {
    if listed.len() == 0 {
        texts(names).no_duplicates() && texts(names).to_set() == header_fields(headers).dom()
    } else {
        names == ordinary_names(listed)
    }
}

/// The names of the headers to show to the service.
pub fn select_names(listed: &Vec<HeaderOrPseudo>, headers: &HeaderMap<HeaderValue>) -> (names: Vec<
    String,
>)
    ensures
        selected(listed@, *headers, names@),
{
    if listed.len() == 0 {
        return header_names(headers);
    }
    let mut names: Vec<String> = Vec::new();
    for i in 0..listed.len()
        invariant
            names@ == ordinary_names(listed@.take(i as int)),
    {
        if let HeaderOrPseudo::Header(name) = &listed[i] {
            names.push(name.clone());
        }
        assert(listed@.take(i + 1).drop_last() =~= listed@.take(i as int));
    }
    assert(listed@.take(listed@.len() as int) =~= listed@);
    names
}

/// The table of the values found under names; a name without a value is left out.
pub open spec fn gathered(names: Seq<String>, values: Seq<Option<String>>) -> Map<Seq<char>, String>
    decreases names.len(),
{
    if names.len() == 0 {
        Map::empty()
    } else {
        let earlier = gathered(names.drop_last(), values.drop_last());
        match values.last() {
            Some(value) => earlier.insert(names.last()@, value),
            None => earlier,
        }
    }
}

/// Whether a table holds, for each header to show, what `collect` found under
/// its name in the request.
pub open spec fn collected<C: Fn(&HeaderMap<HeaderValue>, &String) -> Option<String>>(
    collect: C,
    listed: Seq<HeaderOrPseudo>,
    headers: HeaderMap<HeaderValue>,
    table: Map<Seq<char>, String>,
) -> bool {
    exists|names: Seq<String>, values: Seq<Option<String>>| #[trigger]
        gathered(names, values) == table && names.len() == values.len() && selected(
            listed,
            headers,
            names,
        ) && forall|i: int|
            0 <= i < names.len() ==> call_ensures(
                collect,
                (&headers, &names[i]),
                #[trigger] values[i],
            )
}

/// The headers to show to the service, each with the text that `collect` makes
/// of its values in the request.
pub fn collect_headers<C: Fn(&HeaderMap<HeaderValue>, &String) -> Option<String>>(
    listed: &Vec<HeaderOrPseudo>,
    headers: &HeaderMap<HeaderValue>,
    collect: C,
) -> (table: Table<String>)
    requires
        forall|name: &String| call_requires(collect, (headers, name)),
    ensures
        collected(collect, listed@, *headers, table@),
{
    let names = select_names(listed, headers);
    let ghost mut values: Seq<Option<String>> = Seq::empty();
    let mut table: Table<String> = Table::new();
    for i in 0..names.len()
        invariant
            forall|name: &String| call_requires(collect, (headers, name)),
            values.len() == i,
            table@ == gathered(names@.take(i as int), values),
            forall|j: int|
                0 <= j < i ==> call_ensures(collect, (headers, &names@[j]), #[trigger] values[j]),
    {
        let value = collect(headers, &names[i]);
        proof {
            let before = values;
            values = values.push(value);
            assert(values.drop_last() =~= before);
            assert(names@.take(i + 1).drop_last() =~= names@.take(i as int));
        }
        if let Some(text) = value {
            table.insert(names[i].clone(), text);
        }
    }
    assert(names@.take(names@.len() as int) =~= names@);
    assert(gathered(names@, values) == table@);
    table
}

/// Only names that were looked up are gathered, with what was found under them.
proof fn lemma_gathered_names(names: Seq<String>, values: Seq<Option<String>>, name: Seq<char>)
    requires
        names.len() == values.len(),
        gathered(names, values).contains_key(name),
    ensures
        exists|i: int|
            0 <= i < names.len() && (#[trigger] names[i])@ == name && values[i] == Some(
                gathered(names, values)[name],
            ),
    decreases names.len(),
{
    if names.len() > 0 {
        let front = names.drop_last();
        let last = names.len() - 1;
        if names[last]@ == name && values[last] is Some {
            assert(values[last] == Some(gathered(names, values)[name]));
        } else {
            lemma_gathered_names(front, values.drop_last(), name);
            let i = choose|i: int|
                0 <= i < front.len() && (#[trigger] front[i])@ == name && values.drop_last()[i]
                    == Some(gathered(front, values.drop_last())[name]);
            assert(names[i]@ == name);
        }
    }
}

/// The ordinary names of a list are the names that it gives to ordinary headers.
pub proof fn lemma_ordinary_names(specs: Seq<HeaderOrPseudo>, i: int)
    requires
        0 <= i < ordinary_names(specs).len(),
    ensures
        specs.contains(HeaderOrPseudo::Header(ordinary_names(specs)[i])),
    decreases specs.len(),
{
    if specs.len() > 0 {
        let front = specs.drop_last();
        if i < ordinary_names(front).len() {
            lemma_ordinary_names(front, i);
            let spec_at = choose|k: int|
                0 <= k < front.len() && front[k] == HeaderOrPseudo::Header(
                    ordinary_names(front)[i],
                );
            assert(specs[spec_at] == front[spec_at]);
        } else {
            assert(specs[specs.len() - 1] == specs.last());
        }
    }
}

/// A name that was looked up is gathered if each look-up found something, with
/// something that was found under it.
proof fn lemma_found_is_gathered(names: Seq<String>, values: Seq<Option<String>>, name: Seq<char>)
    requires
        names.len() == values.len(),
        exists|i: int| 0 <= i < names.len() && (#[trigger] names[i])@ == name,
        forall|i: int|
            0 <= i < names.len() && (#[trigger] names[i])@ == name ==> values[i] is Some,
    ensures
        gathered(names, values).contains_key(name),
        exists|i: int|
            0 <= i < names.len() && (#[trigger] names[i])@ == name && values[i] == Some(
                gathered(names, values)[name],
            ),
    decreases names.len(),
{
    let front = names.drop_last();
    let last = names.len() - 1;
    if names[last]@ == name {
        assert(values[last] == Some(gathered(names, values)[name]));
    } else {
        let at = choose|i: int| 0 <= i < names.len() && (#[trigger] names[i])@ == name;
        assert(front[at]@ == name);
        assert forall|i: int| 0 <= i < front.len() && (#[trigger] front[i])@ == name implies (
        values.drop_last()[i] is Some) by {
            assert(names[i]@ == name);
        }
        lemma_found_is_gathered(front, values.drop_last(), name);
        let i = choose|i: int|
            0 <= i < front.len() && (#[trigger] front[i])@ == name && values.drop_last()[i] == Some(
                gathered(front, values.drop_last())[name],
            );
        assert(names[i]@ == name);
    }
}

/// An ordinary header in a list is among the list's ordinary names.
pub proof fn lemma_listed_name(specs: Seq<HeaderOrPseudo>, text: String)
    requires
        specs.contains(HeaderOrPseudo::Header(text)),
    ensures
        ordinary_names(specs).contains(text),
    decreases specs.len(),
{
    let front = specs.drop_last();
    let at = choose|k: int| 0 <= k < specs.len() && specs[k] == HeaderOrPseudo::Header(text);
    let names = ordinary_names(specs);
    if at == specs.len() - 1 {
        assert(names[names.len() - 1] == text);
    } else {
        assert(front[at] == HeaderOrPseudo::Header(text));
        lemma_listed_name(front, text);
        let i = choose|i: int|
            0 <= i < ordinary_names(front).len() && ordinary_names(front)[i] == text;
        assert(names[i] == text);
    }
}

/// Whether a header is one to show: the configuration lists it by name or,
/// where the configuration lists none at all, the request has it.
pub open spec fn to_show(
    listed: Seq<HeaderOrPseudo>,
    headers: HeaderMap<HeaderValue>,
    name: Seq<char>,
) -> bool {
    if listed.len() == 0 {
        header_fields(headers).contains_key(name)
    } else {
        exists|text: String|
            text@ == name && #[trigger] listed.contains(HeaderOrPseudo::Header(text))
    }
}

/// The service is shown no header but those to show, and of each a text that
/// `collect` made of it.
pub proof fn no_other_header_is_shown<
    C: Fn(&HeaderMap<HeaderValue>, &String) -> Option<String>,
>(
    collect: C,
    listed: Seq<HeaderOrPseudo>,
    headers: HeaderMap<HeaderValue>,
    table: Map<Seq<char>, String>,
    name: Seq<char>,
)
    requires
        collected(collect, listed, headers, table),
        table.contains_key(name),
    ensures
        to_show(listed, headers, name),
        exists|key: &String|
            key@ == name && #[trigger] call_ensures(
                collect,
                (&headers, key),
                Some(table[name]),
            ),
{
    let (names, values) = choose|names: Seq<String>, values: Seq<Option<String>>| #[trigger]
        gathered(names, values) == table && names.len() == values.len() && selected(
            listed,
            headers,
            names,
        ) && forall|i: int|
            0 <= i < names.len() ==> call_ensures(
                collect,
                (&headers, &names[i]),
                #[trigger] values[i],
            );
    lemma_gathered_names(names, values, name);
    let i = choose|i: int|
        0 <= i < names.len() && (#[trigger] names[i])@ == name && values[i] == Some(
            gathered(names, values)[name],
        );
    assert(call_ensures(collect, (&headers, &names[i]), values[i]));
    if listed.len() == 0 {
        assert(texts(names)[i] == name);
        assert(texts(names).to_set().contains(name));
    } else {
        lemma_ordinary_names(listed, i);
    }
}

/// The service is shown every header to show that `collect` makes a text of,
/// and it is shown that text.
pub proof fn headers_with_a_text_are_shown<
    C: Fn(&HeaderMap<HeaderValue>, &String) -> Option<String>,
>(
    collect: C,
    listed: Seq<HeaderOrPseudo>,
    headers: HeaderMap<HeaderValue>,
    table: Map<Seq<char>, String>,
    name: Seq<char>,
)
    requires
        collected(collect, listed, headers, table),
        to_show(listed, headers, name),
        forall|key: &String, found: Option<String>| #[trigger]
            call_ensures(collect, (&headers, key), found) && key@ == name ==> found is Some,
    ensures
        table.contains_key(name),
        exists|key: &String|
            key@ == name && #[trigger] call_ensures(
                collect,
                (&headers, key),
                Some(table[name]),
            ),
{
    let (names, values) = choose|names: Seq<String>, values: Seq<Option<String>>| #[trigger]
        gathered(names, values) == table && names.len() == values.len() && selected(
            listed,
            headers,
            names,
        ) && forall|i: int|
            0 <= i < names.len() ==> call_ensures(
                collect,
                (&headers, &names[i]),
                #[trigger] values[i],
            );
    if listed.len() == 0 {
        assert(texts(names).to_set().contains(name));
        let i = choose|i: int| 0 <= i < texts(names).len() && texts(names)[i] == name;
        assert(names[i]@ == name);
    } else {
        let text = choose|text: String|
            text@ == name && #[trigger] listed.contains(HeaderOrPseudo::Header(text));
        lemma_listed_name(listed, text);
        let i = choose|i: int| 0 <= i < names.len() && names[i] == text;
        assert(names[i]@ == name);
    }
    assert forall|i: int| 0 <= i < names.len() && (#[trigger] names[i])@ == name implies (
    values[i] is Some) by {
        assert(call_ensures(collect, (&headers, &names[i]), values[i]));
    }
    lemma_found_is_gathered(names, values, name);
    let i = choose|i: int|
        0 <= i < names.len() && (#[trigger] names[i])@ == name && values[i] == Some(
            gathered(names, values)[name],
        );
    assert(call_ensures(collect, (&headers, &names[i]), values[i]));
}

} // verus!
