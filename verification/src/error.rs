//! The error taxonomy of the library.
//!
//! Every failure is returned as a value of one distinguishable kind:
//! a builder missing a required field, a transport fault, a non-success
//! status reported by the server, a body that did not decode, or a failed
//! page request inside a paginated sequence.  No expected condition panics.

use vstd::prelude::*;

verus! {

/// Why a call could not produce its result.
#[derive(Debug, PartialEq, Eq)]
pub enum Error {
    /// A builder was finalized without a required field; the field's name.
    /// Detected before any network activity.
    MissingField(String),
    /// The client collaborator could not complete the call at all.
    Transport(String),
    /// The server answered with a non-success status; the structured
    /// message from the body when one was present, otherwise a generic
    /// description of the status.
    Api { status: u16, message: String },
    /// The status was a success but the body did not have the expected
    /// shape.
    Deserialization(String),
    /// A subsequent page request of a paginated sequence failed.
    Pagination(Box<Error>),
}

impl Error {
    /// The human-readable description of the error.
    pub open spec fn spec_message(&self) -> Seq<char>
        decreases self,
    {
        match self {
            Error::MissingField(f) => seq!['`'] + f@ + "` must be initialized"@,
            Error::Transport(m) => m@,
            Error::Api { status, message } => message@,
            Error::Deserialization(m) => m@,
            Error::Pagination(e) => e.spec_message(),
        }
    }

    /// Render the description.
    pub fn message(&self) -> (r: String)
        ensures
            r@ == self.spec_message(),
        decreases self,
    {
        match self {
            Error::MissingField(f) => {
                let mut out: Vec<char> = Vec::new();
                out.push('`');
                let mut fc = crate::escape::str_chars(f.as_str());
                out.append(&mut fc);
                let mut sc = crate::escape::str_chars("` must be initialized");
                out.append(&mut sc);
                proof {
                    assert(out@ =~= self.spec_message());
                }
                crate::escape::chars_to_string(out)
            },
            Error::Transport(m) => m.clone(),
            Error::Api { status, message } => message.clone(),
            Error::Deserialization(m) => m.clone(),
            Error::Pagination(e) => e.message(),
        }
    }
}

} // verus!
