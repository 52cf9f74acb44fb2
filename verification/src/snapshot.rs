//! What is kept of a request for later decisions.

use http::HeaderMap;
use http::HeaderValue;
use vstd::prelude::*;

use crate::body::BufferedBody;
use crate::json::Field;
use crate::metadata::ExtAuthzDynamicMetadata;

verus! {

/// The target of a request: its path, and its path with the query if the
/// target is of a form that has one.
#[derive(Debug)]
pub struct RequestTarget {
    pub path_and_query: Option<String>,
    pub path: String,
}

/// The claims of a verified token.
#[derive(Debug)]
pub struct Claims {
    pub inner: Vec<Field>,
}

/// A request as it was when it came in.
#[derive(Debug)]
pub struct RequestSnapshot {
    pub method: String,
    pub path: RequestTarget,
    pub host: Option<String>,
    pub scheme: Option<String>,
    pub headers: HeaderMap<HeaderValue>,
    pub body: Option<BufferedBody>,
    pub jwt: Option<Claims>,
    /// What an authorization of the whole route had to say.
    pub extauthz: Option<ExtAuthzDynamicMetadata>,
}

} // verus!
