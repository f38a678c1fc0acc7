//! Values shared by many endpoints: identifying a project either by its
//! numeric id or by its (escaped) full path, and rendering numbers and
//! booleans into their wire form.

use vstd::prelude::*;
use crate::escape::escape_seq;
use crate::escape::path_escaped;

verus! {

/// The decimal rendering of a number, most significant digit first.
pub open spec fn dec_seq(n: nat) -> Seq<char>
    decreases n,
{
    if n < 10 {
        seq![((n + 48) as u32) as char]
    } else {
        dec_seq(n / 10) + seq![((n % 10 + 48) as u32) as char]
    }
}

/// Append the decimal rendering of `n` to `out`.
fn push_dec(n: u64, out: &mut Vec<char>)
    ensures
        final(out)@ == old(out)@ + dec_seq(n as nat),
    decreases n,
{
    if n >= 10 {
        push_dec(n / 10, out);
    }
    out.push(((n % 10) as u8 + 48) as char);
    proof {
        assert(out@ =~= old(out)@ + dec_seq(n as nat));
    }
}

/// The decimal rendering of a number as a string.
pub fn u64_string(n: u64) -> (r: String)
    ensures
        r@ == dec_seq(n as nat),
{
    let mut out: Vec<char> = Vec::new();
    push_dec(n, &mut out);
    crate::escape::chars_to_string(out)
}

/// The wire rendering of a boolean: lowercase `true` or `false`.
pub open spec fn bool_seq(b: bool) -> Seq<char> {
    if b {
        seq!['t', 'r', 'u', 'e']
    } else {
        seq!['f', 'a', 'l', 's', 'e']
    }
}

/// The wire rendering of a boolean as a string slice.
pub fn bool_str(b: bool) -> (r: &'static str)
    ensures
        r@ == bool_seq(b),
{
    proof {
        reveal_strlit("true");
        reveal_strlit("false");
    }
    if b {
        "true"
    } else {
        "false"
    }
}

/// A project reference: either its numeric id or its full path.
#[derive(Debug)]
pub enum NameOrId {
    /// The project's full path; it is escaped when placed into a URL.
    Name(String),
    /// The project's numeric id.
    Id(u64),
}

impl NameOrId {
    /// How the reference is rendered inside a URL path: the id in decimal,
    /// or the name with every reserved character escaped.
    pub open spec fn render(&self) -> Seq<char> {
        match self {
            NameOrId::Name(s) => escape_seq(s@),
            NameOrId::Id(n) => dec_seq(*n as nat),
        }
    }

    /// A reference by name (a full project path such as `group/project`).
    pub fn name(s: &str) -> (r: NameOrId)
        ensures
            r matches NameOrId::Name(t) && t@ == s@,
    {
        NameOrId::Name(s.to_owned())
    }

    /// A reference by numeric id.
    pub fn id(n: u64) -> (r: NameOrId)
        ensures
            r == NameOrId::Id(n),
    {
        NameOrId::Id(n)
    }

    /// The rendered form, ready to stand as one path segment.
    pub fn to_path_segment(&self) -> (r: String)
        ensures
            r@ == self.render(),
    {
        match self {
            NameOrId::Name(s) => path_escaped(s.as_str()),
            NameOrId::Id(n) => u64_string(*n),
        }
    }
}

} // verus!
