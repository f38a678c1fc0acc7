//! Querying information about the calling user.

use vstd::prelude::*;
use crate::endpoint::Endpoint;
use crate::endpoint::Method;
use crate::error::Error;
use crate::params::QueryParams;

verus! {

/// Query information about the API calling user.
#[derive(Debug, Clone, Copy)]
pub struct CurrentUser {}

/// Accumulates the (absent) fields of a [`CurrentUser`].
#[derive(Debug, Clone, Copy)]
pub struct CurrentUserBuilder {}

impl CurrentUser {
    /// Create a builder for the endpoint.
    pub fn builder() -> CurrentUserBuilder {
        CurrentUserBuilder {  }
    }
}

impl CurrentUserBuilder {
    /// Finalize.  The endpoint has no required field, so the defaults are
    /// always sufficient and finalization always succeeds.
    pub fn build(self) -> (r: Result<CurrentUser, Error>)
        ensures
            r is Ok,
    {
        Ok(CurrentUser {  })
    }
}

impl Endpoint for CurrentUser {
    open spec fn spec_method(&self) -> Method {
        Method::Get
    }

    open spec fn spec_path(&self) -> Seq<char> {
        "user"@
    }

    open spec fn spec_params(&self) -> Seq<(Seq<char>, Seq<char>)> {
        Seq::empty()
    }

    fn method(&self) -> (m: Method)
        ensures
            m == self.spec_method(),
    {
        Method::Get
    }

    fn endpoint(&self) -> (p: String)
        ensures
            p@ == self.spec_path(),
    {
        String::from_str("user")
    }

    fn parameters(&self) -> (q: QueryParams)
        ensures
            q@ == self.spec_params(),
    {
        QueryParams::new()
    }

    open spec fn spec_body(&self) -> Option<(Seq<char>, Seq<char>)> {
        None
    }

    fn body(&self) -> (b: Option<(String, String)>)
        ensures
            b is None <==> self.spec_body() is None,
            b matches Some(p) ==> self.spec_body() matches Some(q) && p.0@ == q.0 && p.1@ == q.1,
    {
        None
    }
}

} // verus!
