//! The client capability and the query executor.
//!
//! A client collaborator resolves and performs one HTTP call; the executor
//! is the single choke point that turns an endpoint plus a client into a
//! result or a classified error: a transport fault, or a non-success
//! status with the structured message taken from the body when the body
//! carries one.

use vstd::prelude::*;
use crate::common::dec_seq;
use crate::common::u64_string;
use crate::endpoint::Endpoint;
use crate::endpoint::Method;
use crate::endpoint::endpoint_url;
use crate::endpoint::url_seq;
use crate::error::Error;
use crate::escape::chars_to_string;
use crate::escape::str_chars;

verus! {

/// The opening of the canonical structured error body, up to the start of
/// the message value.
pub open spec fn msg_prefix() -> Seq<char> {
    seq!['{', '"', 'm', 'e', 's', 's', 'a', 'g', 'e', '"', ':', '"']
}

/// The characters before the first `"`, or nothing when no `"` follows.
pub open spec fn up_to_quote(s: Seq<char>) -> Option<Seq<char>>
    decreases s.len(),
{
    if s.len() == 0 {
        None
    } else if s[0] == '"' {
        Some(Seq::empty())
    } else {
        match up_to_quote(s.drop_first()) {
            Some(t) => Some(seq![s[0]] + t),
            None => None,
        }
    }
}

/// The structured message of an error body: present exactly when the body
/// opens as `{"message":"` and the message value is closed by a `"`.
/// Any other body yields nothing and the caller falls back to a generic
/// description of the status.
pub open spec fn message_of(body: Seq<char>) -> Option<Seq<char>> {
    if body.len() >= 12 && body.take(12) == msg_prefix() {
        up_to_quote(body.skip(12))
    } else {
        None
    }
}

/// The generic description of a non-success status, used when the body
/// carries no structured message.
pub open spec fn status_fallback(status: u16) -> Seq<char> {
    "HTTP status "@ + dec_seq(status as nat)
}

/// The message an API error carries for a given status and body.
pub open spec fn api_message(status: u16, body: Seq<char>) -> Seq<char> {
    match message_of(body) {
        Some(m) => m,
        None => status_fallback(status),
    }
}

/// Scanning for the first `"` at or after `j` settles `up_to_quote`.
proof fn lemma_up_to_quote(s: Seq<char>, j: int)
    requires
        0 <= j <= s.len(),
        forall|k: int| 0 <= k < j ==> s[k] != '"',
    ensures
        j < s.len() && s[j] == '"' ==> up_to_quote(s) == Some(s.take(j)),
        j == s.len() ==> up_to_quote(s) is None,
    decreases j,
{
    if j == 0 {
        if 0 < s.len() && s[0] == '"' {
            assert(s.take(0) =~= Seq::<char>::empty());
        }
        if j == s.len() {
        }
    } else {
        assert(s[0] != '"');
        let t = s.drop_first();
        lemma_up_to_quote(t, j - 1);
        if j < s.len() && s[j] == '"' {
            assert(t[j - 1] == '"');
            assert(up_to_quote(t) == Some(t.take(j - 1)));
            assert(seq![s[0]] + t.take(j - 1) =~= s.take(j));
        }
        if j == s.len() {
            assert(forall|k: int| 0 <= k < t.len() ==> t[k] != '"');
            assert(up_to_quote(t) is None);
        }
    }
}

/// Extract the structured message from an error body, if one is present.
fn extract_message(chars: &Vec<char>) -> (r: Option<Vec<char>>)
    ensures
        r matches Some(v) ==> message_of(chars@) == Some(v@),
        r is None ==> message_of(chars@) is None,
{
    let s = chars.len();
    if s < 12 {
        return None;
    }
    let mut p: Vec<char> = Vec::new();
    p.push('{');
    p.push('"');
    p.push('m');
    p.push('e');
    p.push('s');
    p.push('s');
    p.push('a');
    p.push('g');
    p.push('e');
    p.push('"');
    p.push(':');
    p.push('"');
    proof {
        assert(p@ =~= msg_prefix());
    }
    let mut i: usize = 0;
    while i < 12
        invariant
            i <= 12,
            p@ == msg_prefix(),
            chars@.len() >= 12,
            forall|k: int| 0 <= k < i ==> chars@[k] == msg_prefix()[k],
        decreases 12 - i,
    {
        if chars[i] != p[i] {
            proof {
                assert(chars@.take(12)[i as int] != msg_prefix()[i as int]);
            }
            return None;
        }
        i = i + 1;
    }
    proof {
        assert(chars@.take(12) =~= msg_prefix());
    }
    let ghost rest = chars@.skip(12);
    let mut j: usize = 12;
    while j < s
        invariant
            12 <= j <= s,
            s == chars@.len(),
            rest == chars@.skip(12),
            message_of(chars@) == up_to_quote(rest),
            forall|k: int| 12 <= k < j ==> chars@[k] != '"',
        decreases s - j,
    {
        if chars[j] == '"' {
            let mut out: Vec<char> = Vec::new();
            let mut m: usize = 12;
            while m < j
                invariant
                    12 <= m <= j,
                    j < chars@.len(),
                    out@ == chars@.subrange(12, m as int),
                decreases j - m,
            {
                out.push(chars[m]);
                proof {
                    assert(out@ =~= chars@.subrange(12, m + 1));
                }
                m = m + 1;
            }
            proof {
                assert(forall|k: int| 0 <= k < j - 12 ==> rest[k] != '"');
                lemma_up_to_quote(rest, j - 12);
                assert(rest[j - 12] == '"');
                assert(rest.take(j - 12) =~= chars@.subrange(12, j as int));
            }
            return Some(out);
        }
        j = j + 1;
    }
    proof {
        assert(forall|k: int| 0 <= k < rest.len() ==> rest[k] != '"');
        lemma_up_to_quote(rest, rest.len() as int);
    }
    None
}

/// Classify one response: a success status passes, any other status
/// becomes an API error carrying the status and its message.
pub fn classify_status(status: u16, body: &str) -> (r: Result<(), Error>)
    ensures
        200 <= status < 300 ==> r is Ok,
        !(200 <= status < 300) ==> (r matches Err(e) && e matches Error::Api {
            status: st,
            message,
        } && st == status && message@ == api_message(status, body@)),
{
    if 200 <= status && status < 300 {
        Ok(())
    } else {
        let chars = str_chars(body);
        let message = match extract_message(&chars) {
            Some(v) => chars_to_string(v),
            None => {
                let mut m = String::from_str("HTTP status ");
                let n = u64_string(status as u64);
                m.append(n.as_str());
                m
            },
        };
        Err(Error::Api { status, message })
    }
}

/// One raw transport response: the status code and the body text.
#[derive(Debug)]
pub struct Response {
    /// The HTTP status code.
    pub status: u16,
    /// The body, as text.
    pub body: String,
}

/// The capability a transport collaborator supplies: perform one HTTP
/// call.  `spec_result` is what the transport will answer next for a
/// given method and URL: a status and body, or a transport fault.
pub trait Client {
    /// What the next call with this method and URL answers.
    spec fn spec_result(&self, m: Method, url: Seq<char>) -> Result<(u16, Seq<char>), Seq<char>>;

    /// Perform the call.
    fn perform(&mut self, m: Method, url: &str) -> (r: Result<Response, String>)
        ensures
            old(self).spec_result(m, url@) matches Ok(p) ==> r matches Ok(resp) && resp.status
                == p.0 && resp.body@ == p.1,
            old(self).spec_result(m, url@) matches Err(t) ==> r matches Err(s) && s@ == t,
    ;
}

/// What the executor returns for a given transport answer and expectation:
/// the body on success, a transport error on a fault, and an API error
/// carrying the status and message otherwise.
pub open spec fn raw_outcome(answer: Result<(u16, Seq<char>), Seq<char>>, r: Result<
    String,
    Error,
>) -> bool {
    match answer {
        Err(t) => r matches Err(e) && e matches Error::Transport(m) && m@ == t,
        Ok(p) => if 200 <= p.0 < 300 {
            r matches Ok(body) && body@ == p.1
        } else {
            r matches Err(e) && e matches Error::Api { status, message } && status == p.0
                && message@ == api_message(p.0, p.1)
        },
    }
}

/// Execute an endpoint and hand back the undecoded body text.
pub fn query_raw<E: Endpoint, C: Client>(e: &E, c: &mut C) -> (r: Result<String, Error>)
    ensures
        raw_outcome(
            old(c).spec_result(e.spec_method(), url_seq(e.spec_path(), e.spec_params())),
            r,
        ),
{
    let url = endpoint_url(e);
    let m = e.method();
    match c.perform(m, url.as_str()) {
        Err(t) => Err(Error::Transport(t)),
        Ok(resp) => match classify_status(resp.status, resp.body.as_str()) {
            Err(e) => Err(e),
            Ok(()) => Ok(resp.body),
        },
    }
}

/// What the side-effect-only executor returns for a given transport
/// answer: success exactly on a success status, the same classified
/// errors as the raw mode otherwise.
pub open spec fn ignore_outcome(answer: Result<(u16, Seq<char>), Seq<char>>, r: Result<
    (),
    Error,
>) -> bool {
    match answer {
        Err(t) => r matches Err(e) && e matches Error::Transport(m) && m@ == t,
        Ok(p) => if 200 <= p.0 < 300 {
            r is Ok
        } else {
            r matches Err(e) && e matches Error::Api { status, message } && status == p.0
                && message@ == api_message(p.0, p.1)
        },
    }
}

/// Execute an endpoint for its side effect alone: the body is discarded,
/// but the status is classified exactly as in the raw mode.
pub fn query_ignore<E: Endpoint, C: Client>(e: &E, c: &mut C) -> (r: Result<(), Error>)
    ensures
        ignore_outcome(
            old(c).spec_result(e.spec_method(), url_seq(e.spec_path(), e.spec_params())),
            r,
        ),
{
    match query_raw(e, c) {
        Ok(_) => Ok(()),
        Err(er) => Err(er),
    }
}

/// A client that always answers with one fixed status and body, and
/// remembers the last request it saw; the deterministic stand-in used to
/// test request construction without a network.
#[derive(Debug)]
pub struct MockClient {
    /// The status every call answers with.
    pub status: u16,
    /// The body every call answers with.
    pub body: String,
    /// The method of the last call performed, if any.
    pub last_method: Option<Method>,
    /// The URL of the last call performed, if any.
    pub last_url: Option<String>,
}

impl MockClient {
    /// A client answering every call with this status and body.
    pub fn new(status: u16, body: &str) -> (r: MockClient)
        ensures
            r.status == status,
            r.body@ == body@,
            r.last_method is None,
            r.last_url is None,
    {
        MockClient { status, body: body.to_owned(), last_method: None, last_url: None }
    }
}

/// A client whose transport always fails with one fixed fault; the
/// stand-in used to test that transport faults surface as such.
#[derive(Debug)]
pub struct FailingClient {
    /// The fault every call fails with.
    pub fault: String,
}

impl FailingClient {
    /// A client failing every call with this fault.
    pub fn new(fault: &str) -> (r: FailingClient)
        ensures
            r.fault@ == fault@,
    {
        FailingClient { fault: fault.to_owned() }
    }
}

impl Client for FailingClient {
    open spec fn spec_result(&self, m: Method, url: Seq<char>) -> Result<
        (u16, Seq<char>),
        Seq<char>,
    > {
        Err(self.fault@)
    }

    fn perform(&mut self, m: Method, url: &str) -> (r: Result<Response, String>)
        ensures
            old(self).spec_result(m, url@) matches Ok(p) ==> r matches Ok(resp) && resp.status
                == p.0 && resp.body@ == p.1,
            old(self).spec_result(m, url@) matches Err(t) ==> r matches Err(s) && s@ == t,
    {
        Err(self.fault.clone())
    }
}

impl Client for MockClient {
    open spec fn spec_result(&self, m: Method, url: Seq<char>) -> Result<
        (u16, Seq<char>),
        Seq<char>,
    > {
        Ok((self.status, self.body@))
    }

    fn perform(&mut self, m: Method, url: &str) -> (r: Result<Response, String>)
        ensures
            old(self).spec_result(m, url@) matches Ok(p) ==> r matches Ok(resp) && resp.status
                == p.0 && resp.body@ == p.1,
            old(self).spec_result(m, url@) matches Err(t) ==> r matches Err(s) && s@ == t,
    {
        self.last_method = Some(m);
        self.last_url = Some(url.to_owned());
        Ok(Response { status: self.status, body: self.body.clone() })
    }
}

} // verus!
