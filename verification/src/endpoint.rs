//! The contract every API call implements: a fixed HTTP method, a URL path
//! relative to the API base with caller-supplied segments already escaped,
//! and a set of query parameters.  All three are pure functions of the
//! built value, so an endpoint can be queried any number of times, in any
//! order, and always renders identically.

use vstd::prelude::*;
use crate::params::QueryParams;
use crate::params::query_seq;

verus! {

/// The HTTP verb of a call.
#[derive(Debug, Clone, Copy, PartialEq, Eq, Structural)]
pub enum Method {
    Get,
    Post,
    Put,
    Delete,
    Patch,
    Head,
}

/// The wire name of a verb.
pub open spec fn method_seq(m: Method) -> Seq<char> {
    match m {
        Method::Get => "GET"@,
        Method::Post => "POST"@,
        Method::Put => "PUT"@,
        Method::Delete => "DELETE"@,
        Method::Patch => "PATCH"@,
        Method::Head => "HEAD"@,
    }
}

impl Method {
    /// The wire name of the verb.
    pub fn as_str(&self) -> (r: &'static str)
        ensures
            r@ == method_seq(*self),
    {
        match self {
            Method::Get => "GET",
            Method::Post => "POST",
            Method::Put => "PUT",
            Method::Delete => "DELETE",
            Method::Patch => "PATCH",
            Method::Head => "HEAD",
        }
    }
}

/// A URL with its query string attached: the path alone when there are no
/// parameters, otherwise the path, `?`, and the rendered pairs.
pub open spec fn url_seq(path: Seq<char>, params: Seq<(Seq<char>, Seq<char>)>) -> Seq<char> {
    if params.len() == 0 {
        path
    } else {
        path + seq!['?'] + query_seq(params)
    }
}

/// The capability every API call provides.  The three accessors are
/// deterministic and side-effect-free: each returns exactly the value the
/// corresponding specification function gives for the built endpoint.
pub trait Endpoint {
    /// The verb of the call.
    spec fn spec_method(&self) -> Method;

    /// The path relative to the API base, every caller-supplied segment
    /// escaped.
    spec fn spec_path(&self) -> Seq<char>;

    /// The query parameters, in insertion order.
    spec fn spec_params(&self) -> Seq<(Seq<char>, Seq<char>)>;

    /// The verb of the call.
    fn method(&self) -> (m: Method)
        ensures
            m == self.spec_method(),
    ;

    /// The path relative to the API base.
    fn endpoint(&self) -> (p: String)
        ensures
            p@ == self.spec_path(),
    ;

    /// The query parameters.
    fn parameters(&self) -> (q: QueryParams)
        ensures
            q@ == self.spec_params(),
    ;

    /// The serialized body of a mutating call, with its content type;
    /// nothing for the calls that carry none.
    spec fn spec_body(&self) -> Option<(Seq<char>, Seq<char>)>;

    /// The body and its content type, if the call carries one.
    fn body(&self) -> (b: Option<(String, String)>)
        ensures
            b is None <==> self.spec_body() is None,
            b matches Some(p) ==> self.spec_body() matches Some(q) && p.0@ == q.0 && p.1@ == q.1,
    ;
}

/// The full relative URL of an endpoint: its path, with the query string
/// attached when any parameter is present.
pub fn endpoint_url<E: Endpoint>(e: &E) -> (r: String)
    ensures
        r@ == url_seq(e.spec_path(), e.spec_params()),
{
    let mut url = e.endpoint();
    let params = e.parameters();
    if params.len() > 0 {
        url.append("?");
        let q = params.query_string();
        url.append(q.as_str());
        proof {
            reveal_strlit("?");
            assert(url@ =~= url_seq(e.spec_path(), e.spec_params()));
        }
    }
    url
}

} // verus!
