//! Per-key request rate limiting.
//!
//! Each API key carries a request budget per minute, a counter of the requests
//! made in the current window, and the time of the last admitted request. A
//! request that comes a full minute (or more) after the last admitted one, or
//! the first request ever made with a key, opens a new window whose counter
//! starts at one. Otherwise the request is admitted only while the counter is
//! below the budget, and then bumps the counter. A refused request changes
//! nothing. Times are whole seconds since the Unix epoch.
use vstd::prelude::*;

verus! {

/// Length of a rate-limit window, in seconds.
pub const WINDOW_SECONDS: i64 = 60;

/// The rate-limit counters of one API key.
#[derive(Clone, Copy, Debug)]
pub struct RateWindow {
    pub requests_per_minute: i32,
    pub requests_this_minute: i32,
    pub last_request_time: Option<i64>,
}

/// What the limiter does with one request.
#[derive(Clone, Copy, Debug)]
pub enum RateDecision {
    /// Admit the request and open a new window: the counter restarts at one.
    StartWindow,
    /// Admit the request within the current window: the counter goes up by one.
    Count,
    /// Refuse the request: the budget of the current window is spent.
    Refuse,
}

/// No window is open at time `now`: no request was ever admitted, or the last
/// one was admitted at least a minute ago.
pub open spec fn window_expired(w: RateWindow, now: int) -> bool {
    match w.last_request_time {
        None => true,
        Some(t) => now - t >= WINDOW_SECONDS,
    }
}

/// The limiter's decision for a request at time `now`.
pub open spec fn spec_decide(w: RateWindow, now: int) -> RateDecision {
    if window_expired(w, now) {
        RateDecision::StartWindow
    } else if w.requests_this_minute < w.requests_per_minute {
        RateDecision::Count
    } else {
        RateDecision::Refuse
    }
}

/// Whether a request at time `now` is admitted.
pub open spec fn spec_admits(w: RateWindow, now: int) -> bool {
    !(spec_decide(w, now) is Refuse)
}

/// The counters after a request at time `now`.
pub open spec fn spec_after(w: RateWindow, now: i64) -> RateWindow {
    match spec_decide(w, now as int) {
        RateDecision::StartWindow => RateWindow {
            requests_per_minute: w.requests_per_minute,
            requests_this_minute: 1,
            last_request_time: Some(now),
        },
        RateDecision::Count => RateWindow {
            requests_per_minute: w.requests_per_minute,
            requests_this_minute: (w.requests_this_minute + 1) as i32,
            last_request_time: Some(now),
        },
        RateDecision::Refuse => w,
    }
}

/// Decides what to do with a request made at time `now`.
pub fn decide(w: &RateWindow, now: i64) -> (d: RateDecision)
    ensures
        d == spec_decide(*w, now as int),
{
    let expired = match w.last_request_time {
        None => true,
        Some(t) => (now as i128) - (t as i128) >= (WINDOW_SECONDS as i128),
    };
    if expired {
        RateDecision::StartWindow
    } else if w.requests_this_minute < w.requests_per_minute {
        RateDecision::Count
    } else {
        RateDecision::Refuse
    }
}

/// Handles one request at time `now`: whether it is admitted, and the counters
/// to store afterwards (unchanged when it is refused).
pub fn record_request(w: &RateWindow, now: i64) -> (r: (bool, RateWindow))
    ensures
        r.0 == spec_admits(*w, now as int),
        r.1 == spec_after(*w, now),
{
    match decide(w, now) {
        RateDecision::StartWindow => (
            true,
            RateWindow {
                requests_per_minute: w.requests_per_minute,
                requests_this_minute: 1,
                last_request_time: Some(now),
            },
        ),
        RateDecision::Count => (
            true,
            RateWindow {
                requests_per_minute: w.requests_per_minute,
                requests_this_minute: w.requests_this_minute + 1,
                last_request_time: Some(now),
            },
        ),
        RateDecision::Refuse => (false, *w),
    }
}

/// The admissions of a sequence of requests made at the given times, one after
/// the other, starting from the counters `w`.
pub open spec fn admissions(w: RateWindow, times: Seq<i64>) -> Seq<bool>
    decreases times.len(),
{
    if times.len() == 0 {
        Seq::empty()
    } else {
        seq![spec_admits(w, times[0] as int)] + admissions(spec_after(w, times[0]), times.drop_first())
    }
}

/// The counters after a sequence of requests made at the given times.
pub open spec fn counters_after(w: RateWindow, times: Seq<i64>) -> RateWindow
    decreases times.len(),
{
    if times.len() == 0 {
        w
    } else {
        counters_after(spec_after(w, times[0]), times.drop_first())
    }
}

/// Every time in `times` lies in the minute that starts at `start`.
pub open spec fn within_minute_of(times: Seq<i64>, start: int) -> bool {
    forall|j: int| 0 <= j < times.len() ==> start <= #[trigger] times[j] < start + WINDOW_SECONDS
}

proof fn lemma_burst_in_open_window(w: RateWindow, start: int, times: Seq<i64>)
    requires
        w.last_request_time is Some,
        start <= w.last_request_time->0,
        0 <= w.requests_this_minute <= w.requests_per_minute,
        within_minute_of(times, start),
    ensures
        admissions(w, times).len() == times.len(),
        forall|j: int|
            0 <= j < times.len() ==> #[trigger] admissions(w, times)[j] == (w.requests_this_minute
                + j < w.requests_per_minute),
        counters_after(w, times).requests_this_minute == if w.requests_this_minute + times.len()
            <= w.requests_per_minute {
            w.requests_this_minute + times.len()
        } else {
            w.requests_per_minute as int
        },
    decreases times.len(),
{
    if times.len() > 0 {
        let next = spec_after(w, times[0]);
        let rest = times.drop_first();
        assert(within_minute_of(rest, start)) by {
            assert forall|j: int| 0 <= j < rest.len() implies start <= #[trigger] rest[j] < start
                + WINDOW_SECONDS by {
                assert(rest[j] == times[j + 1]);
            }
        }
        assert(start <= times[0] < start + WINDOW_SECONDS);
        lemma_burst_in_open_window(next, start, rest);
        assert forall|j: int| 0 <= j < times.len() implies #[trigger] admissions(w, times)[j] == (
        w.requests_this_minute + j < w.requests_per_minute) by {
            if j > 0 {
                assert(admissions(w, times)[j] == admissions(next, rest)[j - 1]);
            }
        }
    }
}

/// A burst of requests with a fresh key: when every request falls within the
/// minute of the first one, exactly the first `requests_per_minute` of them
/// are admitted, and the counter ends at the number admitted.
pub proof fn law_burst_admits_exactly_the_budget(w: RateWindow, times: Seq<i64>)
    requires
        w.last_request_time is None,
        w.requests_per_minute >= 1,
        times.len() >= 1,
        within_minute_of(times, times[0] as int),
    ensures
        admissions(w, times).len() == times.len(),
        forall|j: int|
            0 <= j < times.len() ==> #[trigger] admissions(w, times)[j] == (j
                < w.requests_per_minute),
        counters_after(w, times).requests_this_minute == if times.len()
            <= w.requests_per_minute {
            times.len() as int
        } else {
            w.requests_per_minute as int
        },
{
    let first = spec_after(w, times[0]);
    let rest = times.drop_first();
    assert(within_minute_of(rest, times[0] as int)) by {
        assert forall|j: int| 0 <= j < rest.len() implies times[0] <= #[trigger] rest[j] < times[0]
            + WINDOW_SECONDS by {
            assert(rest[j] == times[j + 1]);
        }
    }
    lemma_burst_in_open_window(first, times[0] as int, rest);
    assert forall|j: int| 0 <= j < times.len() implies #[trigger] admissions(w, times)[j] == (j
        < w.requests_per_minute) by {
        if j > 0 {
            assert(admissions(w, times)[j] == admissions(first, rest)[j - 1]);
        }
    }
}

/// No call of the sequence, made one after the other from the counters `w`,
/// finds its window expired.
pub open spec fn never_expires(w: RateWindow, times: Seq<i64>) -> bool
    decreases times.len(),
{
    times.len() == 0 || (!window_expired(w, times[0] as int) && never_expires(
        spec_after(w, times[0]),
        times.drop_first(),
    ))
}

proof fn lemma_calls_in_open_window(w: RateWindow, times: Seq<i64>)
    requires
        0 <= w.requests_this_minute <= w.requests_per_minute,
        never_expires(w, times),
    ensures
        admissions(w, times).len() == times.len(),
        forall|j: int|
            0 <= j < times.len() ==> #[trigger] admissions(w, times)[j] == (w.requests_this_minute
                + j < w.requests_per_minute),
        counters_after(w, times).requests_this_minute == if w.requests_this_minute + times.len()
            <= w.requests_per_minute {
            w.requests_this_minute + times.len()
        } else {
            w.requests_per_minute as int
        },
    decreases times.len(),
{
    if times.len() > 0 {
        let next = spec_after(w, times[0]);
        let rest = times.drop_first();
        lemma_calls_in_open_window(next, rest);
        assert forall|j: int| 0 <= j < times.len() implies #[trigger] admissions(w, times)[j] == (
        w.requests_this_minute + j < w.requests_per_minute) by {
            if j > 0 {
                assert(admissions(w, times)[j] == admissions(next, rest)[j - 1]);
            }
        }
    }
}

proof fn lemma_admissions_len(w: RateWindow, times: Seq<i64>)
    ensures
        admissions(w, times).len() == times.len(),
    decreases times.len(),
{
    if times.len() > 0 {
        lemma_admissions_len(spec_after(w, times[0]), times.drop_first());
    }
}

/// A refused call leaves the counters as they were before it, wherever it
/// stands in a sequence of calls.
pub proof fn law_refused_call_in_sequence_changes_nothing(w: RateWindow, times: Seq<i64>, j: int)
    requires
        0 <= j < times.len(),
        !admissions(w, times)[j],
    ensures
        counters_after(w, times.take(j + 1)) == counters_after(w, times.take(j)),
    decreases j,
{
    let next = spec_after(w, times[0]);
    let rest = times.drop_first();
    lemma_admissions_len(w, times);
    lemma_admissions_len(next, rest);
    assert(times.take(j + 1).drop_first() =~= rest.take(j));
    assert(times.take(j + 1)[0] == times[0]);
    assert(counters_after(w, times.take(j + 1)) == counters_after(next, rest.take(j)));
    if j == 0 {
        assert(admissions(w, times)[0] == spec_admits(w, times[0] as int));
        assert(next == w);
        assert(rest.take(0) =~= Seq::<i64>::empty());
        assert(times.take(0) =~= Seq::<i64>::empty());
    } else {
        assert(times.take(j).drop_first() =~= rest.take(j - 1));
        assert(times.take(j)[0] == times[0]);
        assert(counters_after(w, times.take(j)) == counters_after(next, rest.take(j - 1)));
        assert(admissions(w, times)[j] == admissions(next, rest)[j - 1]);
        law_refused_call_in_sequence_changes_nothing(next, rest, j - 1);
    }
}

/// One rate-limit window, from any counters: when the first call opens a new
/// window (no earlier call, or the last admitted one a minute or more ago)
/// and no later call of the sequence finds the window expired, exactly the
/// first `requests_per_minute` calls are admitted, the counter ends at the
/// number admitted, and every call after those leaves the counters unchanged.
pub proof fn law_window_admits_exactly_the_budget(w: RateWindow, times: Seq<i64>)
    requires
        w.requests_per_minute >= 1,
        times.len() >= 1,
        window_expired(w, times[0] as int),
        never_expires(spec_after(w, times[0]), times.drop_first()),
    ensures
        admissions(w, times).len() == times.len(),
        forall|j: int|
            0 <= j < times.len() ==> #[trigger] admissions(w, times)[j] == (j
                < w.requests_per_minute),
        counters_after(w, times).requests_this_minute == if times.len()
            <= w.requests_per_minute {
            times.len() as int
        } else {
            w.requests_per_minute as int
        },
        forall|j: int|
            w.requests_per_minute <= j < times.len() ==> counters_after(w, #[trigger] times.take(j + 1))
                == counters_after(w, times.take(j)),
{
    let first = spec_after(w, times[0]);
    let rest = times.drop_first();
    lemma_calls_in_open_window(first, rest);
    assert forall|j: int| 0 <= j < times.len() implies #[trigger] admissions(w, times)[j] == (j
        < w.requests_per_minute) by {
        if j > 0 {
            assert(admissions(w, times)[j] == admissions(first, rest)[j - 1]);
        }
    }
    assert forall|j: int|
        w.requests_per_minute <= j < times.len() implies counters_after(w, #[trigger] times.take(j + 1))
        == counters_after(w, times.take(j)) by {
        assert(!admissions(w, times)[j]);
        law_refused_call_in_sequence_changes_nothing(w, times, j);
    }
}

/// With a budget of at least one, the counter never exceeds the budget once it
/// is within it.
pub proof fn law_counter_stays_within_budget(w: RateWindow, now: i64)
    requires
        w.requests_per_minute >= 1,
        0 <= w.requests_this_minute <= w.requests_per_minute,
    ensures
        0 <= spec_after(w, now).requests_this_minute <= spec_after(w, now).requests_per_minute,
        spec_after(w, now).requests_per_minute == w.requests_per_minute,
{
}

/// After a quiet minute (or for a key never used), the next request is admitted
/// and opens a new window with a count of one.
pub proof fn law_quiet_minute_resets(w: RateWindow, now: i64)
    requires
        window_expired(w, now as int),
    ensures
        spec_admits(w, now as int),
        spec_after(w, now).requests_this_minute == 1,
        spec_after(w, now).last_request_time == Some(now),
{
}

/// A refused request leaves the counters as they were, and a request is refused
/// only inside an open window whose budget is spent.
pub proof fn law_refusal_changes_nothing(w: RateWindow, now: i64)
    requires
        !spec_admits(w, now as int),
    ensures
        spec_after(w, now) == w,
        !window_expired(w, now as int),
        w.requests_this_minute >= w.requests_per_minute,
{
}

/// The rules of one request, in terms of the stored counters: a request a
/// full minute (60 seconds) or more after the last admitted one, or the first
/// one ever, is admitted and restarts the count at one; a request within the
/// minute is admitted and counted while the count is below the budget, and is
/// refused without any change once the budget is spent. An admitted request
/// becomes the last one; the budget never changes.
pub proof fn law_request_rules(w: RateWindow, now: i64)
    ensures
        (w.last_request_time is None || now - w.last_request_time->0 >= 60) ==> (spec_admits(
            w,
            now as int,
        ) && spec_after(w, now).requests_this_minute == 1 && spec_after(w, now).last_request_time
            == Some(now)),
        (w.last_request_time matches Some(t) && now - t < 60 && w.requests_this_minute
            < w.requests_per_minute) ==> (spec_admits(w, now as int) && spec_after(
            w,
            now,
        ).requests_this_minute == w.requests_this_minute + 1 && spec_after(w, now).last_request_time
            == Some(now)),
        (w.last_request_time matches Some(t) && now - t < 60 && w.requests_this_minute
            >= w.requests_per_minute) ==> (!spec_admits(w, now as int) && spec_after(w, now) == w),
        spec_after(w, now).requests_per_minute == w.requests_per_minute,
{
}

} // verus!
