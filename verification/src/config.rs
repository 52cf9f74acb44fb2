//! How external authorization is configured.

use vstd::prelude::*;

use crate::body::BodyOptions;
use crate::headers::HeaderOrPseudo;
use crate::table::Table;

verus! {

/// An expression of the gateway's policy language, by its source text.
#[derive(Debug, PartialEq)]
pub struct Expression {
    pub source: String,
}

impl Expression {
    /// The expression with the given source text.
    pub fn new(source: &str) -> (expression: Expression)
        ensures
            expression.source@ == source@,
    {
        Expression { source: source.to_owned() }
    }
}

/// What becomes of a request when the service cannot be asked.
#[derive(Debug, Clone, Copy, PartialEq, Eq, Structural)]
pub enum FailureMode {
    /// The request goes through.
    Allow,
    /// The request is refused with `403 Forbidden`.
    Deny,
    /// The request is refused with the given status.
    DenyWithStatus(u16),
}

/// How the service is spoken to.
#[derive(Debug)]
pub enum Protocol {
    Grpc {
        /// Fixed entries that are sent with each request.
        context: Option<Table<String>>,
        /// Expressions whose values are sent as metadata, by name.
        metadata: Option<Table<Expression>>,
    },
    Http {
        path: Option<Expression>,
        redirect: Option<Expression>,
        include_response_headers: Vec<String>,
        add_request_headers: Table<Expression>,
        metadata: Option<Table<Expression>>,
    },
}

/// The configuration of external authorization.
#[derive(Debug)]
pub struct ExtAuthz {
    /// The name of the backend that answers.
    pub target: String,
    pub protocol: Protocol,
    pub failure_mode: FailureMode,
    /// The headers that are sent along; if none is listed, all are.
    pub include_request_headers: Vec<HeaderOrPseudo>,
    /// Whether and how the body is sent along.
    pub include_request_body: Option<BodyOptions>,
}

impl Default for ExtAuthz {
    /// Plain gRPC, refusing requests when the service cannot be asked.
    fn default() -> (config: Self)
        ensures
            config.target@ == Seq::<char>::empty(),
            config.protocol == (Protocol::Grpc { context: None, metadata: None }),
            config.failure_mode == FailureMode::Deny,
            config.include_request_headers@ == Seq::<HeaderOrPseudo>::empty(),
            config.include_request_body is None,
    {
        ExtAuthz {
            target: String::new(),
            protocol: Protocol::Grpc { context: None, metadata: None },
            failure_mode: FailureMode::Deny,
            include_request_headers: Vec::new(),
            include_request_body: None,
        }
    }
}

/// The expressions of a table, in order.
pub open spec fn table_expressions(entries: Seq<(String, Expression)>) -> Seq<Expression> {
    entries.map_values(|entry: (String, Expression)| entry.1)
}

/// The expression that may be there, as a list.
pub open spec fn optional_expression(expression: Option<Expression>) -> Seq<Expression> {
    match expression {
        Some(e) => seq![e],
        None => Seq::empty(),
    }
}

/// The expressions of the table that may be there.
pub open spec fn optional_table(table: Option<Table<Expression>>) -> Seq<Expression> {
    match table {
        Some(t) => table_expressions(t.listed()),
        None => Seq::empty(),
    }
}

impl Protocol {
    /// Every expression that the protocol's settings hold.
    pub open spec fn all_expressions(self) -> Seq<Expression> {
        match self {
            Protocol::Grpc { metadata, .. } => optional_table(metadata),
            Protocol::Http { path, redirect, add_request_headers, metadata, .. } =>
                optional_expression(path) + optional_expression(redirect) + table_expressions(
                add_request_headers.listed(),
            ) + optional_table(metadata),
        }
    }
}

/// The expressions behind a list of references.
pub open spec fn referents(references: Seq<&Expression>) -> Seq<Expression> {
    references.map_values(|e: &Expression| *e)
}

fn push_table<'a>(list: &mut Vec<&'a Expression>, table: &'a Table<Expression>)
    ensures
        referents(final(list)@) == referents(old(list)@) + table_expressions(table.listed()),
{
    let entries = table.entries();
    for i in 0..entries.len()
        invariant
            entries@ == table.listed(),
            referents(list@) == referents(old(list)@) + table_expressions(entries@.take(i as int)),
    {
        let ghost before = list@;
        list.push(&entries[i].1);
        proof {
            assert(referents(list@) =~= referents(before).push(entries@[i as int].1));
            assert(table_expressions(entries@.take(i + 1)) =~= table_expressions(
                entries@.take(i as int),
            ).push(entries@[i as int].1));
        }
    }
    assert(entries@.take(entries@.len() as int) =~= entries@);
}

fn push_optional_table<'a>(list: &mut Vec<&'a Expression>, table: &'a Option<Table<Expression>>)
    ensures
        referents(final(list)@) == referents(old(list)@) + optional_table(*table),
{
    if let Some(t) = table {
        push_table(list, t);
    }
    assert(referents(list@) =~= referents(old(list)@) + optional_table(*table));
}

fn push_optional<'a>(list: &mut Vec<&'a Expression>, expression: &'a Option<Expression>)
    ensures
        referents(final(list)@) == referents(old(list)@) + optional_expression(*expression),
{
    if let Some(e) = expression {
        list.push(e);
    }
    assert(referents(list@) =~= referents(old(list)@) + optional_expression(*expression));
}

impl ExtAuthz {
    /// Every expression that the configuration holds, so that what they read
    /// can be kept ready.
    pub fn expressions(&self) -> (list: Vec<&Expression>)
        ensures
            referents(list@) == self.protocol.all_expressions(),
    {
        let mut list: Vec<&Expression> = Vec::new();
        match &self.protocol {
            Protocol::Grpc { metadata, .. } => push_optional_table(&mut list, metadata),
            Protocol::Http { path, redirect, add_request_headers, metadata, .. } => {
                push_optional(&mut list, path);
                push_optional(&mut list, redirect);
                push_table(&mut list, add_request_headers);
                push_optional_table(&mut list, metadata);
            },
        }
        assert(referents(list@) =~= self.protocol.all_expressions());
        list
    }
}

} // verus!
