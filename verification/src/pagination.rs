//! The pagination driver.
//!
//! A collection-returning call is paged: the driver requests page 1, 2,
//! 3, ... of a fixed size, concatenates the items in the order the pages
//! hand them back, and stops after the first page that is shorter than the
//! page size (in particular after an empty page).  Pages are requested
//! strictly one after another; nothing is reordered or dropped.  A failed
//! page request aborts the sequence with a pagination error.

use vstd::prelude::*;
use vstd::arithmetic::div_mod::lemma_fundamental_div_mod;
use vstd::arithmetic::div_mod::lemma_fundamental_div_mod_converse;
use crate::error::Error;

verus! {

/// The part of the items a page of the given size holds: the window from
/// `(page - 1) * per` to `page * per`, clipped to the end.
pub open spec fn page_slice<T>(s: Seq<T>, page: nat, per: nat) -> Seq<T>
    recommends
        page >= 1,
        per >= 1,
{
    let lo: int = if (page - 1) * per < s.len() {
        (page - 1) * per
    } else {
        s.len() as int
    };
    let hi: int = if page * per < s.len() {
        (page * per) as int
    } else {
        s.len() as int
    };
    s.subrange(lo, hi)
}

/// A paged source of items: something that can be asked for the `page`-th
/// window of `per_page` items of one fixed logical collection.  The
/// transport behind it may fail any request; a source that never fails
/// says so through `infallible`.
pub trait PagedSource<T> {
    /// The fixed logical collection being paged over.
    spec fn items(&self) -> Seq<T>;

    /// How many page requests have been served.
    spec fn calls(&self) -> nat;

    /// Whether every request is answered (no transport faults).
    spec fn infallible(&self) -> bool;

    /// Fetch one page: the `page`-th window of `per_page` items, or the
    /// error that page request ran into.
    fn fetch_page(&mut self, page: u64, per_page: u64) -> (r: Result<Vec<T>, Error>)
        requires
            page >= 1,
            per_page >= 1,
        ensures
            final(self).items() == old(self).items(),
            final(self).infallible() == old(self).infallible(),
            final(self).calls() == old(self).calls() + 1,
            r matches Ok(v) ==> v@ == page_slice(
                old(self).items(),
                page as nat,
                per_page as nat,
            ),
            old(self).infallible() ==> r is Ok,
    ;
}

/// With `n` in the last page's window, the page number is `n / per + 1`.
proof fn lemma_last_page(n: int, per: int, page: int)
    requires
        per >= 1,
        page >= 1,
        (page - 1) * per <= n,
        n < page * per,
    ensures
        page - 1 == n / per,
{
    let r = n - (page - 1) * per;
    assert(r < per) by (nonlinear_arith)
        requires
            n < page * per,
            r == n - (page - 1) * per,
    ;
    lemma_fundamental_div_mod_converse(n, per, page - 1, r);
}

/// Drain a paged source: every item of the collection, in order.
///
/// The driver performs requests for pages 1, 2, ... and stops after the
/// first short page, so over a source of `n` items it performs exactly
/// `n / per_page + 1` requests; when `per_page` does not divide `n` that
/// is the least number of pages that hold `n` items, and when it does the
/// final request is the one that comes back empty and ends the sequence.
pub fn paged_all<T, S: PagedSource<T>>(src: &mut S, per_page: u64) -> (r: Result<Vec<T>, Error>)
    requires
        per_page >= 1,
        old(src).items().len() + 1 < u64::MAX,
    ensures
        final(src).items() == old(src).items(),
        final(src).infallible() == old(src).infallible(),
        r matches Ok(v) ==> v@ == old(src).items(),
        r matches Err(e) ==> e matches Error::Pagination(_),
        old(src).infallible() ==> r is Ok && final(src).calls() == old(src).calls() + (old(
            src,
        ).items().len() as int) / (per_page as int) + 1,
{
    let ghost items = old(src).items();
    let ghost n: int = items.len() as int;
    let mut acc: Vec<T> = Vec::new();
    let mut page: u64 = 1;
    loop
        invariant
            items == old(src).items(),
            src.items() == items,
            src.infallible() == old(src).infallible(),
            per_page >= 1,
            n == items.len(),
            n + 1 < u64::MAX,
            1 <= page,
            (page - 1) * per_page <= n,
            acc@ == items.take((page - 1) * per_page),
            src.calls() == old(src).calls() + page - 1,
        decreases n + 1 - (page - 1) * per_page,
    {
        let ghost lo: int = (page - 1) * per_page;
        match src.fetch_page(page, per_page) {
            Err(e) => {
                return Err(Error::Pagination(Box::new(e)));
            },
            Ok(mut chunk) => {
                let clen = chunk.len();
                let ghost hi: int = if page * per_page < n {
                    page * per_page
                } else {
                    n
                };
                proof {
                    assert(page * per_page == lo + per_page) by (nonlinear_arith)
                        requires
                            lo == (page - 1) * per_page,
                    ;
                    assert(chunk@ == items.subrange(lo, hi));
                    assert(clen == hi - lo);
                }
                acc.append(&mut chunk);
                proof {
                    assert(acc@ =~= items.take(hi));
                }
                if (clen as u64) < per_page {
                    proof {
                        assert(hi == n);
                        assert(acc@ =~= items);
                        if src.infallible() {
                            lemma_last_page(n, per_page as int, page as int);
                        }
                    }
                    return Ok(acc);
                }
                proof {
                    assert(hi == lo + per_page);
                    assert(page * per_page <= n);
                    assert(page <= page * per_page) by (nonlinear_arith)
                        requires
                            per_page >= 1,
                            page >= 0,
                    ;
                }
                page = page + 1;
            },
        }
    }
}

/// When the page size does not divide the item count, the driver's
/// request count `n / per + 1` is exactly the least number of pages that
/// hold `n` items, the ceiling of `n / per`.  (When `per` divides `n` the
/// driver needs one request beyond `n / per`: the one that comes back
/// empty and ends the sequence.)
pub proof fn lemma_requests_are_ceiling(n: int, per: int)
    requires
        per >= 1,
        n >= 0,
        n % per != 0,
    ensures
        n / per + 1 == (n + per - 1) / per,
{
    let q = n / per;
    let r = n % per;
    lemma_fundamental_div_mod(n, per);
    assert(n == per * q + r);
    assert(1 <= r < per);
    assert(n + per - 1 == (q + 1) * per + (r - 1)) by (nonlinear_arith)
        requires
            n == per * q + r,
    ;
    lemma_fundamental_div_mod_converse(n + per - 1, per, q + 1, r - 1);
}

/// A request counter: the exact count as a ghost number, mirrored by a
/// runtime counter that saturates at its maximum.
#[derive(Clone, Copy)]
struct PageCounter {
    served: Ghost<nat>,
    hits: u64,
}

impl PageCounter {
    /// The runtime counter mirrors the served count until it saturates.
    #[verifier::type_invariant]
    spec fn in_step(&self) -> bool {
        if self.served@ <= u64::MAX {
            self.hits == self.served@
        } else {
            self.hits == u64::MAX
        }
    }

    fn start() -> (r: PageCounter)
        ensures
            r.served@ == 0,
    {
        PageCounter { served: Ghost(0), hits: 0 }
    }

    fn bump(self) -> (r: PageCounter)
        ensures
            r.served@ == self.served@ + 1,
    {
        proof {
            use_type_invariant(&self);
        }
        let hits: u64 = if self.hits < u64::MAX {
            self.hits + 1
        } else {
            u64::MAX
        };
        PageCounter { served: Ghost(self.served@ + 1), hits }
    }

    fn value(&self) -> (r: u64)
        ensures
            self.served@ <= u64::MAX ==> r == self.served@,
    {
        proof {
            use_type_invariant(self);
        }
        self.hits
    }
}

/// A deterministic in-memory paged source: the simulated collection used
/// to exercise the driver without a network.  It serves every request and
/// counts them.
pub struct VecSource<T> {
    items: Vec<T>,
    counter: PageCounter,
}

impl<T: Copy> VecSource<T> {
    /// A source over the given items.
    pub fn new(items: Vec<T>) -> (r: VecSource<T>)
        ensures
            r.items() == items@,
            r.calls() == 0,
            r.infallible(),
    {
        VecSource { items, counter: PageCounter::start() }
    }

    /// How many page requests have been served; saturates at the counter's
    /// maximum.
    pub fn request_count(&self) -> (r: u64)
        ensures
            self.calls() <= u64::MAX ==> r == self.calls(),
    {
        self.counter.value()
    }
}

impl<T: Copy> PagedSource<T> for VecSource<T> {
    closed spec fn items(&self) -> Seq<T> {
        self.items@
    }

    closed spec fn calls(&self) -> nat {
        self.counter.served@
    }

    closed spec fn infallible(&self) -> bool {
        true
    }

    fn fetch_page(&mut self, page: u64, per_page: u64) -> (r: Result<Vec<T>, Error>)
        ensures
            final(self).items() == old(self).items(),
            final(self).infallible() == old(self).infallible(),
            final(self).calls() == old(self).calls() + 1,
            r matches Ok(v) ==> v@ == page_slice(
                old(self).items(),
                page as nat,
                per_page as nat,
            ),
            old(self).infallible() ==> r is Ok,
    {
        let len: u64 = self.items.len() as u64;
        let start: u64 = if page - 1 > len / per_page {
            len
        } else {
            proof {
                assert((page - 1) * per_page <= (len / per_page) * per_page <= len)
                    by (nonlinear_arith)
                    requires
                        per_page >= 1,
                        page - 1 <= len / per_page,
                        len >= 0,
                ;
            }
            (page - 1) * per_page
        };
        let end: u64 = if per_page > len - start {
            len
        } else {
            start + per_page
        };
        let ghost lo: int = if (page - 1) * per_page < self.items@.len() {
            (page - 1) * (per_page as int)
        } else {
            self.items@.len() as int
        };
        let ghost hi: int = if page * per_page < self.items@.len() {
            (page as int) * per_page
        } else {
            self.items@.len() as int
        };
        proof {
            assert(page * per_page == (page - 1) * per_page + per_page) by (nonlinear_arith);
            if page - 1 > len / per_page {
                assert((page - 1) * per_page >= len) by (nonlinear_arith)
                    requires
                        per_page >= 1,
                        page - 1 > len / per_page,
                        len >= 0,
                ;
            }
            assert(start == lo);
            assert(end == hi);
        }
        proof {
            assert(start <= end <= self.items@.len());
        }
        let su: usize = start as usize;
        let eu: usize = end as usize;
        proof {
            assert(su == start);
            assert(eu == end);
        }
        let mut out: Vec<T> = Vec::new();
        proof {
            assert(out@ =~= self.items@.subrange(su as int, su as int));
        }
        let mut i: usize = su;
        while i < eu
            invariant
                su <= i <= eu,
                eu <= self.items@.len(),
                out@ == self.items@.subrange(su as int, i as int),
            decreases eu - i,
        {
            let x = self.items[i];
            out.push(x);
            proof {
                assert(out@ =~= self.items@.subrange(su as int, i + 1));
            }
            i = i + 1;
        }
        self.counter = self.counter.bump();
        Ok(out)
    }
}

} // verus!
