//! Fetching the raw contents of a file in a repository.

use vstd::prelude::*;
use crate::common::NameOrId;
use crate::common::bool_seq;
use crate::endpoint::Endpoint;
use crate::endpoint::Method;
use crate::error::Error;
use crate::escape::escape_seq;
use crate::escape::path_escaped;
use crate::params::QueryParams;

verus! {

/// Get a raw file from a repository.
///
/// The response body is the file's bytes, so the raw execution mode is the
/// natural fit: no JSON decoding is attempted on the result.
#[derive(Debug)]
pub struct FileRaw {
    project: NameOrId,
    file_path: String,
    ref_: Option<String>,
    lfs: Option<bool>,
}

/// Accumulates the fields of a [`FileRaw`] until finalization.
#[derive(Debug)]
pub struct FileRawBuilder {
    project: Option<NameOrId>,
    file_path: Option<String>,
    ref_: Option<String>,
    lfs: Option<bool>,
}

impl FileRaw {
    /// The project the file lives in.
    pub closed spec fn spec_project(&self) -> NameOrId {
        self.project
    }

    /// The path of the file inside the repository; escaped automatically.
    pub closed spec fn spec_file_path(&self) -> Seq<char> {
        self.file_path@
    }

    /// The ref to read the file from, if one was given.
    pub closed spec fn spec_ref(&self) -> Option<Seq<char>> {
        match self.ref_ {
            Some(s) => Some(s@),
            None => None,
        }
    }

    /// Whether LFS pointers are to be resolved, if requested.
    pub closed spec fn spec_lfs(&self) -> Option<bool> {
        self.lfs
    }

    /// Create a builder for the endpoint.
    pub fn builder() -> (b: FileRawBuilder)
        ensures
            b.spec_project() is None,
            b.spec_file_path() is None,
            b.spec_ref() is None,
            b.spec_lfs() is None,
    {
        FileRawBuilder { project: None, file_path: None, ref_: None, lfs: None }
    }
}

impl FileRawBuilder {
    /// The project set so far, if any.
    pub closed spec fn spec_project(&self) -> Option<NameOrId> {
        self.project
    }

    /// The file path set so far, if any.
    pub closed spec fn spec_file_path(&self) -> Option<Seq<char>> {
        match self.file_path {
            Some(s) => Some(s@),
            None => None,
        }
    }

    /// The optional ref set so far.
    pub closed spec fn spec_ref(&self) -> Option<Seq<char>> {
        match self.ref_ {
            Some(s) => Some(s@),
            None => None,
        }
    }

    /// The optional LFS flag set so far.
    pub closed spec fn spec_lfs(&self) -> Option<bool> {
        self.lfs
    }

    /// Set the project the file lives in.
    pub fn project(self, project: NameOrId) -> (r: Self)
        ensures
            r.spec_project() == Some(project),
            r.spec_file_path() == self.spec_file_path(),
            r.spec_ref() == self.spec_ref(),
            r.spec_lfs() == self.spec_lfs(),
    {
        FileRawBuilder {
            project: Some(project),
            file_path: self.file_path,
            ref_: self.ref_,
            lfs: self.lfs,
        }
    }

    /// Set the path of the file inside the repository.
    pub fn file_path(self, file_path: &str) -> (r: Self)
        ensures
            r.spec_file_path() == Some(file_path@),
            r.spec_project() == self.spec_project(),
            r.spec_ref() == self.spec_ref(),
            r.spec_lfs() == self.spec_lfs(),
    {
        FileRawBuilder {
            project: self.project,
            file_path: Some(file_path.to_owned()),
            ref_: self.ref_,
            lfs: self.lfs,
        }
    }

    /// Set the ref to read the file from.
    pub fn ref_(self, ref_: &str) -> (r: Self)
        ensures
            r.spec_ref() == Some(ref_@),
            r.spec_project() == self.spec_project(),
            r.spec_file_path() == self.spec_file_path(),
            r.spec_lfs() == self.spec_lfs(),
    {
        FileRawBuilder {
            project: self.project,
            file_path: self.file_path,
            ref_: Some(ref_.to_owned()),
            lfs: self.lfs,
        }
    }

    /// Ask that an LFS pointer be resolved to its backing data.
    pub fn lfs(self, lfs: bool) -> (r: Self)
        ensures
            r.spec_lfs() == Some(lfs),
            r.spec_project() == self.spec_project(),
            r.spec_file_path() == self.spec_file_path(),
            r.spec_ref() == self.spec_ref(),
    {
        FileRawBuilder {
            project: self.project,
            file_path: self.file_path,
            ref_: self.ref_,
            lfs: Some(lfs),
        }
    }

    /// Finalize: both required fields must have been set, in any order;
    /// the first missing one (project before file_path) is reported by
    /// name.  The optional fields default to unset.
    pub fn build(self) -> (r: Result<FileRaw, Error>)
        ensures
            self.spec_project() is None ==> (r matches Err(e) && e matches Error::MissingField(f)
                && f@ == "project"@),
            self.spec_project() is Some && self.spec_file_path() is None ==> (r matches Err(e)
                && e matches Error::MissingField(f) && f@ == "file_path"@),
            self.spec_project() is Some && self.spec_file_path() is Some ==> r is Ok,
            r matches Ok(ep) ==> Some(ep.spec_project()) == self.spec_project() && Some(
                ep.spec_file_path(),
            ) == self.spec_file_path() && ep.spec_ref() == self.spec_ref() && ep.spec_lfs()
                == self.spec_lfs(),
    {
        match self.project {
            None => Err(Error::MissingField("project".to_owned())),
            Some(project) => match self.file_path {
                None => Err(Error::MissingField("file_path".to_owned())),
                Some(file_path) => Ok(
                    FileRaw { project, file_path, ref_: self.ref_, lfs: self.lfs },
                ),
            },
        }
    }
}

/// The query parameters of a raw-file fetch: `ref` and `lfs`, each present
/// exactly when it was set.
pub open spec fn file_raw_params(ref_: Option<Seq<char>>, lfs: Option<bool>) -> Seq<
    (Seq<char>, Seq<char>),
> {
    let with_ref: Seq<(Seq<char>, Seq<char>)> = match ref_ {
        Some(r) => seq![("ref"@, r)],
        None => Seq::empty(),
    };
    match lfs {
        Some(b) => with_ref + seq![("lfs"@, bool_seq(b))],
        None => with_ref,
    }
}

impl Endpoint for FileRaw {
    open spec fn spec_method(&self) -> Method {
        Method::Get
    }

    open spec fn spec_path(&self) -> Seq<char> {
        "projects/"@ + self.spec_project().render() + "/repository/files/"@ + escape_seq(
            self.spec_file_path(),
        ) + "/raw"@
    }

    open spec fn spec_params(&self) -> Seq<(Seq<char>, Seq<char>)> {
        file_raw_params(self.spec_ref(), self.spec_lfs())
    }

    fn method(&self) -> (m: Method)
        ensures
            m == self.spec_method(),
    {
        Method::Get
    }

    fn endpoint(&self) -> (p: String)
        ensures
            p@ == self.spec_path(),
    {
        let mut url = String::from_str("projects/");
        let seg = self.project.to_path_segment();
        url.append(seg.as_str());
        url.append("/repository/files/");
        let escaped = path_escaped(self.file_path.as_str());
        url.append(escaped.as_str());
        url.append("/raw");
        url
    }

    fn parameters(&self) -> (q: QueryParams)
        ensures
            q@ == self.spec_params(),
    {
        let mut params = QueryParams::new();
        match &self.ref_ {
            Some(r) => params.push("ref", r.as_str()),
            None => (),
        }
        match self.lfs {
            Some(b) => params.push_bool("lfs", b),
            None => (),
        }
        proof {
            assert(params@ =~= self.spec_params());
        }
        params
    }

    open spec fn spec_body(&self) -> Option<(Seq<char>, Seq<char>)> {
        None
    }

    fn body(&self) -> (b: Option<(String, String)>)
        ensures
            b is None <==> self.spec_body() is None,
            b matches Some(p) ==> self.spec_body() matches Some(q) && p.0@ == q.0 && p.1@ == q.1,
    {
        None
    }
}

/// Rendering an endpoint is a pure function of its inputs: two values
/// built from the same project, file path, ref and LFS flag render the
/// same method, path and parameters, on every build.
pub proof fn lemma_file_raw_deterministic(a: &FileRaw, b: &FileRaw)
    requires
        a.spec_project().render() == b.spec_project().render(),
        a.spec_file_path() == b.spec_file_path(),
        a.spec_ref() == b.spec_ref(),
        a.spec_lfs() == b.spec_lfs(),
    ensures
        a.spec_method() == b.spec_method(),
        a.spec_path() == b.spec_path(),
        a.spec_params() == b.spec_params(),
{
}

} // verus!
