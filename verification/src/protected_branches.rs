//! Unprotecting a branch of a project.

use vstd::prelude::*;
use crate::common::NameOrId;
use crate::endpoint::Endpoint;
use crate::endpoint::Method;
use crate::error::Error;
use crate::escape::escape_seq;
use crate::escape::path_escaped;
use crate::params::QueryParams;

verus! {

/// Remove protection from a branch (or branch glob) of a project.
#[derive(Debug)]
pub struct UnprotectBranch {
    project: NameOrId,
    name: String,
}

/// Accumulates the fields of an [`UnprotectBranch`] until finalization.
#[derive(Debug)]
pub struct UnprotectBranchBuilder {
    project: Option<NameOrId>,
    name: Option<String>,
}

impl UnprotectBranch {
    /// The project the branch belongs to.
    pub closed spec fn spec_project(&self) -> NameOrId {
        self.project
    }

    /// The name or glob of the branch to unprotect.
    pub closed spec fn spec_name(&self) -> Seq<char> {
        self.name@
    }

    /// Create a builder for the endpoint.
    pub fn builder() -> (b: UnprotectBranchBuilder)
        ensures
            b.spec_project() is None,
            b.spec_name() is None,
    {
        UnprotectBranchBuilder { project: None, name: None }
    }
}

impl UnprotectBranchBuilder {
    /// The project set so far, if any.
    pub closed spec fn spec_project(&self) -> Option<NameOrId> {
        self.project
    }

    /// The branch name set so far, if any.
    pub closed spec fn spec_name(&self) -> Option<Seq<char>> {
        match self.name {
            Some(s) => Some(s@),
            None => None,
        }
    }

    /// Set the project the branch belongs to.
    pub fn project(self, project: NameOrId) -> (r: Self)
        ensures
            r.spec_project() == Some(project),
            r.spec_name() == self.spec_name(),
    {
        UnprotectBranchBuilder { project: Some(project), name: self.name }
    }

    /// Set the name or glob of the branch to unprotect.
    pub fn name(self, name: &str) -> (r: Self)
        ensures
            r.spec_name() == Some(name@),
            r.spec_project() == self.spec_project(),
    {
        UnprotectBranchBuilder { project: self.project, name: Some(name.to_owned()) }
    }

    /// Finalize: every required field must have been set, in any order;
    /// the first missing one (project before name) is reported by name.
    pub fn build(self) -> (r: Result<UnprotectBranch, Error>)
        ensures
            self.spec_project() is None ==> (r matches Err(e) && e matches Error::MissingField(f)
                && f@ == "project"@),
            self.spec_project() is Some && self.spec_name() is None ==> (r matches Err(e)
                && e matches Error::MissingField(f) && f@ == "name"@),
            self.spec_project() is Some && self.spec_name() is Some ==> r is Ok,
            r matches Ok(ep) ==> Some(ep.spec_project()) == self.spec_project() && Some(
                ep.spec_name(),
            ) == self.spec_name(),
    {
        match self.project {
            None => Err(Error::MissingField("project".to_owned())),
            Some(project) => match self.name {
                None => Err(Error::MissingField("name".to_owned())),
                Some(name) => Ok(UnprotectBranch { project, name }),
            },
        }
    }
}

impl Endpoint for UnprotectBranch {
    open spec fn spec_method(&self) -> Method {
        Method::Delete
    }

    open spec fn spec_path(&self) -> Seq<char> {
        "projects/"@ + self.spec_project().render() + "/protected_branches/"@ + escape_seq(
            self.spec_name(),
        )
    }

    open spec fn spec_params(&self) -> Seq<(Seq<char>, Seq<char>)> {
        Seq::empty()
    }

    fn method(&self) -> (m: Method)
        ensures
            m == self.spec_method(),
    {
        Method::Delete
    }

    fn endpoint(&self) -> (p: String)
        ensures
            p@ == self.spec_path(),
    {
        let mut url = String::from_str("projects/");
        let seg = self.project.to_path_segment();
        url.append(seg.as_str());
        url.append("/protected_branches/");
        let escaped = path_escaped(self.name.as_str());
        url.append(escaped.as_str());
        url
    }

    fn parameters(&self) -> (q: QueryParams)
        ensures
            q@ == self.spec_params(),
    {
        QueryParams::new()
    }

    open spec fn spec_body(&self) -> Option<(Seq<char>, Seq<char>)> {
        None
    }

    fn body(&self) -> (b: Option<(String, String)>)
        ensures
            b is None <==> self.spec_body() is None,
            b matches Some(p) ==> self.spec_body() matches Some(q) && p.0@ == q.0 && p.1@ == q.1,
    {
        None
    }
}

/// Rendering an endpoint is a pure function of its inputs: two values
/// built from the same project and branch name render the same method,
/// path and parameters, on every build.
pub proof fn lemma_unprotect_deterministic(a: &UnprotectBranch, b: &UnprotectBranch)
    requires
        a.spec_project().render() == b.spec_project().render(),
        a.spec_name() == b.spec_name(),
    ensures
        a.spec_method() == b.spec_method(),
        a.spec_path() == b.spec_path(),
        a.spec_params() == b.spec_params(),
{
}

} // verus!
