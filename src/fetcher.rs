//! The [`Fetcher`]: a buffer of proxies for one set of options, and the decisions of the loop
//! that fills it.
//!
//! A request for `amount` proxies is one run of [`Fetcher::advance`]: the first call passes no
//! page; each later call passes the outcome of the request that the previous step asked for.
//! The caller performs the requests, and paces them through a
//! [`SharedClock`][crate::pacing::SharedClock] unless the fetcher is premium.

use vstd::prelude::*;

use crate::errors::{error_of_text, is_client_status, is_error_for, is_known_message, is_server_status, ApiError};
use crate::opts::{empty_builder, opts_from, Opts};
use crate::pacing::{fetcher_wait, noted, SharedClock};
use crate::proxy::Proxy;
use crate::types::NaiveResponse;

verus! {

/// What the caller does next.
#[derive(Debug)]
pub enum Step {
    /// Hand these records to the caller: the request is met.
    Deliver(Vec<Proxy>),
    /// Make one request to the API, and pass its outcome to the next step.
    Request,
    /// Hand this error to the caller: the request failed. Records fetched so far stay buffered.
    Fail(ApiError),
}

/// The records held once the outcome `page` is taken in. A failed request adds nothing.
pub open spec fn held(buf: Seq<Proxy>, page: Option<Result<Vec<Proxy>, ApiError>>) -> Seq<Proxy> {
    match page {
        Some(Ok(v)) => buf + v@,
        _ => buf,
    }
}

/// Whether `have` records meet a request for `amount`.
pub open spec fn satisfied(have: nat, amount: nat) -> bool {
    have >= amount
}

/// The records handed out when `amount` of `held` are: the most recently fetched ones.
pub open spec fn taken(held: Seq<Proxy>, amount: nat) -> Seq<Proxy> {
    held.subrange(held.len() - amount, held.len() as int)
}

/// The records that stay buffered when `amount` of `held` are handed out.
pub open spec fn left(held: Seq<Proxy>, amount: nat) -> Seq<Proxy> {
    held.subrange(0, held.len() - amount)
}

/// Proxies fetched for one set of options, served from a buffer that is filled from the API.
#[derive(Clone, Debug)]
pub struct Fetcher {
    opts: Opts,
    proxies: Vec<Proxy>,
}

impl View for Fetcher {
    type V = Seq<Proxy>;

    /// The buffered records, oldest first.
    closed spec fn view(&self) -> Seq<Proxy> {
        self.proxies@
    }
}

impl Fetcher {
    pub closed spec fn options(&self) -> Opts {
        self.opts
    }

    pub fn new(opts: Opts) -> (r: Self)
        ensures
            r@ == Seq::<Proxy>::empty(),
            r.options() == opts,
    {
        Fetcher { opts, proxies: Vec::new() }
    }

    pub fn opts(&self) -> (r: &Opts)
        ensures
            *r == self.options(),
    {
        &self.opts
    }

    /// How many records are buffered.
    pub fn buffered(&self) -> (r: usize)
        ensures
            r == self@.len(),
    {
        self.proxies.len()
    }

    /// Whether the requests of this fetcher go by the session's clock. A premium fetcher's do
    /// not: the API does not rate-limit requests made with a key.
    pub fn is_paced(&self) -> (r: bool)
        ensures
            r == !self.options().premium(),
    {
        !self.opts.is_premium()
    }

    /// How many milliseconds to wait at `now` before this fetcher's next request: none for a
    /// premium fetcher, else what the session's clock asks.
    pub fn wait_before_request(&self, clock: &SharedClock, now: u64) -> (r: u64)
        ensures
            r == fetcher_wait(self.options().premium(), *clock, now),
    {
        if self.opts.is_premium() {
            0
        } else {
            clock.wait_before_request(now)
        }
    }

    /// Records on the session's clock that this fetcher made a request at `now`. A premium
    /// fetcher's requests are not recorded.
    pub fn note_request(&self, clock: &mut SharedClock, now: u64)
        ensures
            *final(clock) == noted(self.options().premium(), *old(clock), now),
    {
        if !self.opts.is_premium() {
            clock.stamp(now);
        }
    }

    /// One step of a request for `amount` records: takes in `page`, the outcome of the request
    /// the previous step asked for (`None` on the first step), then delivers from the buffer if
    /// it holds enough, or asks for another request.
    pub fn advance(
        &mut self,
        amount: usize,
        page: Option<Result<Vec<Proxy>, ApiError>>,
    ) -> (r: Step)
        ensures
            final(self).options() == old(self).options(),
            page matches Some(Err(e)) ==> {
                &&& r matches Step::Fail(f) && f == e
                &&& final(self)@ == old(self)@
            },
            !(page matches Some(Err(_))) ==> {
                let now_held = held(old(self)@, page);
                if satisfied(now_held.len(), amount as nat) {
                    &&& r matches Step::Deliver(v) && v@ == taken(now_held, amount as nat)
                    &&& final(self)@ == left(now_held, amount as nat)
                } else {
                    &&& r is Request
                    &&& final(self)@ == now_held
                }
            },
    {
        match page {
            Some(Err(e)) => {
                return Step::Fail(e);
            },
            Some(Ok(mut records)) => {
                self.proxies.append(&mut records);
            },
            None => {},
        }
        if self.proxies.len() >= amount {
            let at = self.proxies.len() - amount;
            Step::Deliver(self.proxies.split_off(at))
        } else {
            Step::Request
        }
    }

    /// All the buffered records, oldest first.
    pub fn drain(self) -> (r: Vec<Proxy>)
        ensures
            r@ == self@,
    {
        self.proxies
    }
}

impl Default for Fetcher {
    fn default() -> (r: Self)
        ensures
            r@ == Seq::<Proxy>::empty(),
            r.options()@ == opts_from(empty_builder()),
            !r.options().premium(),
    {
        Fetcher::new(Opts::default())
    }
}

/// What an answer of the API gives. `parsed` is the body read as records, where it could be
/// read: a successful answer whose body is not records carries one of the known messages or is
/// `Unknown`. An unsuccessful answer must be a client or server error, or carry a known message.
pub fn page_from_response(resp: NaiveResponse, parsed: Option<Vec<Proxy>>) -> (r: Result<
    Vec<Proxy>,
    ApiError,
>)
    requires
        resp.is_ok() || is_client_status(resp.status) || is_server_status(resp.status)
            || is_known_message(resp.text@),
    ensures
        resp.is_ok() && parsed is Some ==> r == Ok::<Vec<Proxy>, ApiError>(parsed.unwrap()),
        resp.is_ok() && parsed is None ==> r == Err::<Vec<Proxy>, ApiError>(error_of_text(resp.text@)),
        !resp.is_ok() ==> (r matches Err(e) && is_error_for(e, resp.status, resp.text@)),
{
    if resp.ok() {
        match parsed {
            Some(records) => Ok(records),
            None => Err(ApiError::from_text(&resp.text)),
        }
    } else {
        Err(ApiError::from_response(resp))
    }
}

/// How many requests a fill makes from `have` records when every answer holds `page` records.
pub open spec fn requests_for(have: nat, amount: nat, page: nat) -> nat
    decreases
            if have < amount {
                amount - have
            } else {
                0
            },
    when page > 0
{
    if satisfied(have, amount) {
        0
    } else {
        1 + requests_for(have + page, amount, page)
    }
}

pub open spec fn ceil_div(a: nat, b: nat) -> nat
    recommends
        b > 0,
{
    ((a + b - 1) / (b as int)) as nat
}

/// When enough records are buffered, the first step of a request delivers exactly `amount`
/// records and asks for no request, so the API and the clock are left alone.
pub proof fn law_buffer_sufficiency(buf: Seq<Proxy>, amount: nat)
    requires
        amount <= buf.len(),
    ensures
        satisfied(held(buf, None).len(), amount),
        taken(held(buf, None), amount).len() == amount,
        left(held(buf, None), amount).len() == buf.len() - amount,
{
}

/// A fill from `have` records to `amount`, with full pages of `page` records, asks for another
/// request exactly while fewer than `amount` are held, and so makes
/// `ceil((amount - have) / page)` requests.
pub proof fn law_count_accumulation(have: nat, amount: nat, page: nat)
    requires
        page > 0,
    ensures
        requests_for(have, amount, page) == if have >= amount {
            0
        } else {
            ceil_div((amount - have) as nat, page)
        },
        forall|n: nat|
            n < requests_for(have, amount, page) ==> !satisfied(#[trigger] (have + n * page), amount),
        satisfied(have + requests_for(have, amount, page) * page, amount),
    decreases
            if have < amount {
                amount - have
            } else {
                0
            },
{
    if have < amount {
        law_count_accumulation(have + page, amount, page);
        let k = requests_for(have + page, amount, page);
        let a = (amount - have) as nat;
        if have + page >= amount {
            assert(ceil_div(a, page) == 1) by (nonlinear_arith)
                requires
                    0 < a <= page,
                    ceil_div(a, page) == ((a + page - 1) / (page as int)) as nat,
            ;
        } else {
            assert(ceil_div(a, page) == 1 + ceil_div((a - page) as nat, page)) by (nonlinear_arith)
                requires
                    a > page,
                    page > 0,
                    ceil_div(a, page) == ((a + page - 1) / (page as int)) as nat,
                    ceil_div((a - page) as nat, page) == ((a - page + page - 1) / (page as int)) as nat,
            ;
        }
        assert forall|n: nat| n < requests_for(have, amount, page) implies !satisfied(
            #[trigger] (have + n * page),
            amount,
        ) by {
            if n > 0 {
                let m = (n - 1) as nat;
                assert(have + n * page == (have + page) + m * page) by (nonlinear_arith)
                    requires
                        n == m + 1,
                ;
                assert(!satisfied((have + page) + m * page, amount));
            }
        }
        assert(have + (1 + k) * page == (have + page) + k * page) by (nonlinear_arith);
    }
}

/// The records held after the answers `pages` are taken in, in order.
pub open spec fn absorbed(buf: Seq<Proxy>, pages: Seq<Seq<Proxy>>) -> Seq<Proxy>
    decreases pages.len(),
{
    if pages.len() == 0 {
        buf
    } else {
        absorbed(buf, pages.drop_last()) + pages.last()
    }
}

/// The number of records in `pages`.
pub open spec fn total_len(pages: Seq<Seq<Proxy>>) -> nat
    decreases pages.len(),
{
    if pages.len() == 0 {
        0
    } else {
        total_len(pages.drop_last()) + pages.last().len()
    }
}

/// Nothing is lost or duplicated: after a fill that took in `pages`, the records that stay
/// buffered followed by the records delivered are the old buffer followed by every page, in
/// order, and so as many as were held plus were fetched.
pub proof fn law_residue(buf: Seq<Proxy>, pages: Seq<Seq<Proxy>>, amount: nat)
    requires
        amount <= absorbed(buf, pages).len(),
    ensures
        left(absorbed(buf, pages), amount) + taken(absorbed(buf, pages), amount) == absorbed(
            buf,
            pages,
        ),
        absorbed(buf, pages).len() == buf.len() + total_len(pages),
{
    lemma_absorbed_len(buf, pages);
    assert(left(absorbed(buf, pages), amount) + taken(absorbed(buf, pages), amount) =~= absorbed(
        buf,
        pages,
    ));
}

/// A run of [`Fetcher::advance`] for `amount` from the buffer `buf`, answered with the full pages
/// `pages` of `page` records each. Before the `n`-th answer the buffer is
/// `absorbed(buf, pages.take(n))`: taking in the next answer gives the next such buffer. Every
/// step before the last asks for another request, the last delivers, so the run makes exactly
/// `ceil((amount - buf.len()) / page)` requests, and fewer than `page` records stay buffered.
pub proof fn law_fill_run(buf: Seq<Proxy>, pages: Seq<Seq<Proxy>>, amount: nat, page: nat)
    requires
        page > 0,
        forall|i: int| 0 <= i < pages.len() ==> (#[trigger] pages[i]).len() == page,
        pages.len() == requests_for(buf.len(), amount, page),
    ensures
        absorbed(buf, pages.take(0)) == held(buf, None),
        forall|n: int, v: Vec<Proxy>|
            #![trigger held(absorbed(buf, pages.take(n)), Some(Ok(v)))]
            0 <= n < pages.len() && v@ == pages[n] ==> held(
                absorbed(buf, pages.take(n)),
                Some(Ok(v)),
            ) == absorbed(buf, pages.take(n + 1)),
        forall|n: int|
            0 <= n < pages.len() ==> !satisfied(
                (#[trigger] absorbed(buf, pages.take(n))).len(),
                amount,
            ),
        satisfied(absorbed(buf, pages).len(), amount),
        pages.len() == if buf.len() >= amount {
            0
        } else {
            ceil_div((amount - buf.len()) as nat, page)
        },
        buf.len() < amount ==> absorbed(buf, pages).len() - amount < page,
{
    law_count_accumulation(buf.len(), amount, page);
    assert(pages.take(0) =~= Seq::<Seq<Proxy>>::empty());
    assert forall|n: int, v: Vec<Proxy>|
        #![trigger held(absorbed(buf, pages.take(n)), Some(Ok(v)))]
        0 <= n < pages.len() && v@ == pages[n] implies held(
        absorbed(buf, pages.take(n)),
        Some(Ok(v)),
    ) == absorbed(buf, pages.take(n + 1)) by {
        assert(pages.take(n + 1).drop_last() =~= pages.take(n));
    }
    assert forall|n: int| 0 <= n < pages.len() implies !satisfied(
        (#[trigger] absorbed(buf, pages.take(n))).len(),
        amount,
    ) by {
        lemma_absorbed_full(buf, pages, n, page);
        assert(!satisfied(buf.len() + (n as nat) * page, amount));
    }
    lemma_absorbed_full(buf, pages, pages.len() as int, page);
    assert(pages.take(pages.len() as int) =~= pages);
    if buf.len() < amount {
        let k = pages.len();
        assert(k > 0);
        let m = (k - 1) as nat;
        assert(!satisfied(buf.len() + m * page, amount));
        assert(buf.len() + k * page == buf.len() + m * page + page) by (nonlinear_arith)
            requires
                k == m + 1,
        ;
    }
}

/// After `n` full pages of `page` records, `n * page` records were added.
proof fn lemma_absorbed_full(buf: Seq<Proxy>, pages: Seq<Seq<Proxy>>, n: int, page: nat)
    requires
        0 <= n <= pages.len(),
        forall|i: int| 0 <= i < pages.len() ==> (#[trigger] pages[i]).len() == page,
    ensures
        absorbed(buf, pages.take(n)).len() == buf.len() + (n as nat) * page,
    decreases n,
{
    if n > 0 {
        lemma_absorbed_full(buf, pages, n - 1, page);
        assert(pages.take(n).drop_last() =~= pages.take(n - 1));
        assert(pages.take(n).last() == pages[n - 1]);
        assert((n as nat) * page == ((n - 1) as nat) * page + page) by (nonlinear_arith)
            requires
                n >= 1,
        ;
        assert(absorbed(buf, pages.take(n)) == absorbed(buf, pages.take(n - 1)) + pages[n - 1]);
    } else {
        assert(pages.take(n).len() == 0);
        assert(0 * page == 0);
    }
}

proof fn lemma_absorbed_len(buf: Seq<Proxy>, pages: Seq<Seq<Proxy>>)
    ensures
        absorbed(buf, pages).len() == buf.len() + total_len(pages),
    decreases pages.len(),
{
    if pages.len() > 0 {
        lemma_absorbed_len(buf, pages.drop_last());
    }
}

} // verus!
