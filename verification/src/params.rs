//! Query parameters of an endpoint: an ordered list of key/value pairs,
//! rendered into a query string with component escaping.
//!
//! Optional parameters that are left unset do not appear at all; a
//! collection-valued parameter is pushed once per element under the same
//! key.  Rendering is a pure function of the pairs, so the produced query
//! string is the same on every call.

use vstd::prelude::*;
use crate::common::bool_seq;
use crate::common::bool_str;
use crate::escape::escape_chars;
use crate::escape::escape_seq;
use crate::escape::str_chars;
use crate::escape::chars_to_string;

verus! {

/// The logical content of a pair list: each key and value as a character
/// sequence, in insertion order.
pub open spec fn pairs_view(ps: Seq<(String, String)>) -> Seq<(Seq<char>, Seq<char>)> {
    Seq::new(ps.len(), |i: int| (ps[i].0@, ps[i].1@))
}

/// One rendered `key=value` pair, both components escaped.
pub open spec fn pair_seq(p: (Seq<char>, Seq<char>)) -> Seq<char> {
    escape_seq(p.0) + seq!['='] + escape_seq(p.1)
}

/// The rendered query string: the pairs joined with `&`, empty when there
/// are none.
pub open spec fn query_seq(ps: Seq<(Seq<char>, Seq<char>)>) -> Seq<char>
    decreases ps.len(),
{
    if ps.len() == 0 {
        Seq::empty()
    } else if ps.len() == 1 {
        pair_seq(ps[0])
    } else {
        pair_seq(ps[0]) + seq!['&'] + query_seq(ps.drop_first())
    }
}

/// An ordered set of query parameters.
pub struct QueryParams {
    pairs: Vec<(String, String)>,
}

impl View for QueryParams {
    type V = Seq<(Seq<char>, Seq<char>)>;

    closed spec fn view(&self) -> Seq<(Seq<char>, Seq<char>)> {
        pairs_view(self.pairs@)
    }
}

/// Render the pairs from position `i` on into `out`, `&`-separated.
fn render_from(pairs: &Vec<(String, String)>, i: usize, out: &mut Vec<char>)
    requires
        i <= pairs@.len(),
    ensures
        final(out)@ == old(out)@ + query_seq(pairs_view(pairs@).skip(i as int)),
    decreases pairs@.len() - i,
{
    let ghost t = pairs_view(pairs@).skip(i as int);
    if i == pairs.len() {
        proof {
            assert(t =~= Seq::<(Seq<char>, Seq<char>)>::empty());
        }
        return ;
    }
    proof {
        assert(t[0] == (pairs@[i as int].0@, pairs@[i as int].1@));
    }
    let key_chars = str_chars(pairs[i].0.as_str());
    escape_chars(&key_chars, out);
    out.push('=');
    let val_chars = str_chars(pairs[i].1.as_str());
    escape_chars(&val_chars, out);
    if i + 1 < pairs.len() {
        out.push('&');
        proof {
            assert(t.drop_first() =~= pairs_view(pairs@).skip(i + 1));
            assert(t.len() >= 2);
        }
        render_from(pairs, i + 1, out);
        proof {
            assert(out@ =~= old(out)@ + query_seq(t));
        }
    } else {
        proof {
            assert(t.len() == 1);
            assert(out@ =~= old(out)@ + query_seq(t));
        }
    }
}

impl QueryParams {
    /// An empty parameter set.
    pub fn new() -> (r: QueryParams)
        ensures
            r@ == Seq::<(Seq<char>, Seq<char>)>::empty(),
    {
        let r = QueryParams { pairs: Vec::new() };
        proof {
            assert(r@ =~= Seq::<(Seq<char>, Seq<char>)>::empty());
        }
        r
    }

    /// Append one `key=value` pair.
    pub fn push(&mut self, key: &str, value: &str)
        ensures
            final(self)@ == old(self)@.push((key@, value@)),
    {
        self.pairs.push((key.to_owned(), value.to_owned()));
        proof {
            assert(self@ =~= old(self)@.push((key@, value@)));
        }
    }

    /// Append a pair only when the value is present; an unset optional
    /// parameter leaves the set exactly as it was.
    pub fn push_opt(&mut self, key: &str, value: Option<&str>)
        ensures
            value matches Some(v) ==> final(self)@ == old(self)@.push((key@, v@)),
            value is None ==> final(self)@ == old(self)@,
    {
        match value {
            Some(v) => self.push(key, v),
            None => (),
        }
    }

    /// Append a boolean pair, rendered lowercase.
    pub fn push_bool(&mut self, key: &str, value: bool)
        ensures
            final(self)@ == old(self)@.push((key@, bool_seq(value))),
    {
        let s = bool_str(value);
        self.push(key, s);
    }

    /// Append a boolean pair only when the value is present.
    pub fn push_opt_bool(&mut self, key: &str, value: Option<bool>)
        ensures
            value matches Some(b) ==> final(self)@ == old(self)@.push((key@, bool_seq(b))),
            value is None ==> final(self)@ == old(self)@,
    {
        match value {
            Some(b) => self.push_bool(key, b),
            None => (),
        }
    }

    /// Append one pair per element, all under the same key, in order.
    pub fn push_all(&mut self, key: &str, values: &Vec<String>)
        ensures
            final(self)@ == old(self)@ + Seq::new(
                values@.len(),
                |i: int| (key@, values@[i]@),
            ),
    {
        let ghost added = Seq::new(values@.len(), |i: int| (key@, values@[i]@));
        let n = values.len();
        let mut i: usize = 0;
        while i < n
            invariant
                i <= n,
                n == values@.len(),
                added == Seq::new(values@.len(), |i: int| (key@, values@[i]@)),
                self@ == old(self)@ + added.take(i as int),
            decreases n - i,
        {
            self.push(key, values[i].as_str());
            proof {
                assert(self@ =~= old(self)@ + added.take(i + 1));
            }
            i = i + 1;
        }
        proof {
            assert(added.take(n as int) =~= added);
        }
    }

    /// How many pairs are present.
    pub fn len(&self) -> (n: usize)
        ensures
            n == self@.len(),
    {
        self.pairs.len()
    }

    /// The rendered query string, without a leading `?`.
    pub fn query_string(&self) -> (r: String)
        ensures
            r@ == query_seq(self@),
    {
        let mut out: Vec<char> = Vec::new();
        render_from(&self.pairs, 0, &mut out);
        proof {
            assert(pairs_view(self.pairs@).skip(0) =~= self@);
        }
        chars_to_string(out)
    }
}

} // verus!
