//! The pacing clock that the fetchers of one session share.
//!
//! Times are milliseconds on a time line of the caller's choice that never runs backwards.
//! The caller holds the clock under exclusive access for the whole of a paced fill: it asks
//! [`SharedClock::wait_before_request`] how long to wait, waits, makes the request and then
//! calls [`SharedClock::stamp`].

use vstd::prelude::*;

verus! {

/// The least time between the starts of two paced requests, in milliseconds.
///
/// The API documents one second; that alone still drew rate-limit errors.
pub const DELAY_MS: u64 = 1100;

/// How exclusive access to the clock was obtained.
#[derive(Clone, Copy, Debug, PartialEq, Eq)]
pub enum Access {
    /// The previous holder released it normally.
    Clean,
    /// The previous holder ended abnormally while holding it; the stamp may be stale.
    Poisoned,
}

/// When the latest paced request of a session was made.
#[derive(Clone, Copy, Debug, PartialEq, Eq)]
pub struct SharedClock {
    /// `None` before the first request: the first request of a session does not wait.
    pub last: Option<u64>,
}

/// Time from `last` to `now`; nothing if `now` is not after `last`.
pub open spec fn elapsed(last: u64, now: u64) -> nat {
    if now >= last {
        (now - last) as nat
    } else {
        0
    }
}

/// How long a request planned at `now` waits, so that it starts `DELAY_MS` after `last`.
pub open spec fn wait_for(last: Option<u64>, now: u64) -> nat {
    match last {
        None => 0,
        Some(t) => if elapsed(t, now) < DELAY_MS {
            (DELAY_MS - elapsed(t, now)) as nat
        } else {
            0
        },
    }
}

/// The clock once exclusive access is had: after an abnormal end of the previous holder the
/// stamp is reset to `now`, so a stale stamp never shortens a wait.
pub open spec fn acquired(clock: SharedClock, access: Access, now: u64) -> SharedClock {
    match access {
        Access::Clean => clock,
        Access::Poisoned => SharedClock { last: Some(now) },
    }
}

impl SharedClock {
    /// A clock under which no request was made yet.
    pub fn new() -> (r: SharedClock)
        ensures
            r.last is None,
    {
        SharedClock { last: None }
    }

    /// Takes over the clock with the access that was had.
    pub fn acquire(&mut self, access: Access, now: u64)
        ensures
            *final(self) == acquired(*old(self), access, now),
    {
        match access {
            Access::Clean => {},
            Access::Poisoned => {
                self.last = Some(now);
            },
        }
    }

    /// How many milliseconds to wait at `now` before the next request.
    pub fn wait_before_request(&self, now: u64) -> (r: u64)
        ensures
            r == wait_for(self.last, now),
    {
        match self.last {
            None => 0,
            Some(t) => {
                let elapsed = if now >= t {
                    now - t
                } else {
                    0
                };
                if elapsed < DELAY_MS {
                    DELAY_MS - elapsed
                } else {
                    0
                }
            },
        }
    }

    /// Records that a request was made at `now`.
    pub fn stamp(&mut self, now: u64)
        ensures
            final(self).last == Some(now),
    {
        self.last = Some(now);
    }
}

/// How long a request of a fetcher waits at `now`. A premium fetcher never waits.
pub open spec fn fetcher_wait(premium: bool, clock: SharedClock, now: u64) -> nat {
    if premium {
        0
    } else {
        wait_for(clock.last, now)
    }
}

/// The clock after a fetcher made a request at `now`. A premium fetcher's requests leave it as
/// it was.
pub open spec fn noted(premium: bool, clock: SharedClock, now: u64) -> SharedClock {
    if premium {
        clock
    } else {
        SharedClock { last: Some(now) }
    }
}

/// The clock after the requests `reqs`, each of a fetcher that is premium or not, at a time.
pub open spec fn clock_after(clock: SharedClock, reqs: Seq<(bool, u64)>) -> SharedClock
    decreases reqs.len(),
{
    if reqs.len() == 0 {
        clock
    } else {
        noted(reqs.last().0, clock_after(clock, reqs.drop_last()), reqs.last().1)
    }
}

/// Premium fetchers and the others do not get in each other's way. A premium fetcher's request
/// never waits, whatever the clock, and the clock after any requests of a session is what it
/// would be without the premium ones among them: so the waits of the other fetchers are too.
pub proof fn law_premium_bypass(clock: SharedClock, reqs: Seq<(bool, u64)>, now: u64)
    ensures
        fetcher_wait(true, clock, now) == 0,
        clock_after(clock, reqs) == clock_after(clock, reqs.filter(|r: (bool, u64)| !r.0)),
        fetcher_wait(false, clock_after(clock, reqs), now) == fetcher_wait(
            false,
            clock_after(clock, reqs.filter(|r: (bool, u64)| !r.0)),
            now,
        ),
    decreases reqs.len(),
{
    reveal(Seq::filter);
    if reqs.len() > 0 {
        law_premium_bypass(clock, reqs.drop_last(), now);
        let kept = reqs.filter(|r: (bool, u64)| !r.0);
        let before = reqs.drop_last().filter(|r: (bool, u64)| !r.0);
        if !reqs.last().0 {
            assert(kept == before.push(reqs.last()));
            assert(kept.drop_last() =~= before);
        } else {
            assert(kept == before);
        }
    }
}

/// Paced requests start at least `DELAY_MS` apart. A request that started at `prev_start` and
/// was stamped at `stamp`, no earlier, is followed by one planned at `now`, no earlier than
/// the stamp; after its wait, that one starts `DELAY_MS` or more after `prev_start`.
pub proof fn law_requests_spaced(prev_start: u64, stamp: u64, now: u64)
    requires
        prev_start <= stamp <= now,
    ensures
        now + wait_for(Some(stamp), now) >= prev_start + DELAY_MS,
{
}

/// After an abnormal end of the previous holder, the next holder goes on, with the stamp reset
/// to the time it took over; its next request waits the full `DELAY_MS`.
pub proof fn law_poisoned_recovery(clock: SharedClock, now: u64)
    ensures
        acquired(clock, Access::Poisoned, now).last == Some(now),
        wait_for(acquired(clock, Access::Poisoned, now).last, now) == DELAY_MS,
{
}

} // verus!
