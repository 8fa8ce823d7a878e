//! Per-caller credentials and the fixed-window rate-limiting state machine.

use vstd::prelude::*;

verus! {

/// Length of one rate-limiting window, in time units.
pub const WINDOW_LENGTH: u64 = 60;

/// An identity token with its rate-limiting usage state.
///
/// `request_count` counts the requests admitted in the current window;
/// `last_request_time` is the time at which the current window started;
/// `limited` records whether the most recent evaluation in the current
/// window denied the request.
pub struct ApiKey {
    pub key: String,
    pub user: Option<String>,
    pub limited: bool,
    pub request_count: u32,
    pub last_request_time: u64,
}

/// The window has rolled over at time `now` when more than `WINDOW_LENGTH`
/// time units have passed since the window started. A clock that moved
/// backwards gives a non-positive elapsed time and never rolls the window.
pub open spec fn rolls_over(k: ApiKey, now: u64) -> bool {
    now - k.last_request_time > WINDOW_LENGTH
}

/// The request count an evaluation at time `now` starts from:
/// zero after a rollover, the accumulated count otherwise.
pub open spec fn count_base(k: ApiKey, now: u64) -> u32 {
    if rolls_over(k, now) {
        0u32
    } else {
        k.request_count
    }
}

/// Whether an evaluation of `k` at time `now` admits the request.
pub open spec fn admits(k: ApiKey, rate_limit: u32, now: u64) -> bool {
    count_base(k, now) < rate_limit
}

/// The credential state after one evaluation at time `now`: the window is
/// first rolled over if expired, then an admitted request is counted, while
/// a denied request marks the credential as limited without raising the
/// count past the limit.
pub open spec fn evaluated(k: ApiKey, rate_limit: u32, now: u64) -> ApiKey {
    ApiKey {
        request_count: if admits(k, rate_limit, now) {
            (count_base(k, now) + 1) as u32
        } else {
            count_base(k, now)
        },
        last_request_time: if rolls_over(k, now) {
            now
        } else {
            k.last_request_time
        },
        limited: if admits(k, rate_limit, now) {
            if rolls_over(k, now) {
                false
            } else {
                k.limited
            }
        } else {
            true
        },
        ..k
    }
}

/// The credential state after evaluating one request at each time in
/// `times`, in order.
pub open spec fn evaluated_seq(k: ApiKey, rate_limit: u32, times: Seq<u64>) -> ApiKey
    decreases times.len(),
{
    if times.len() == 0 {
        k
    } else {
        evaluated_seq(evaluated(k, rate_limit, times[0]), rate_limit, times.drop_first())
    }
}

/// The admit/deny decisions of evaluating one request at each time in
/// `times`, in order.
pub open spec fn admit_results(k: ApiKey, rate_limit: u32, times: Seq<u64>) -> Seq<bool>
    decreases times.len(),
{
    if times.len() == 0 {
        Seq::<bool>::empty()
    } else {
        seq![admits(k, rate_limit, times[0])] + admit_results(
            evaluated(k, rate_limit, times[0]),
            rate_limit,
            times.drop_first(),
        )
    }
}

/// One evaluation never raises the count past the limit.
pub proof fn lemma_count_bounded(k: ApiKey, rate_limit: u32, now: u64)
    requires
        k.request_count <= rate_limit,
    ensures
        evaluated(k, rate_limit, now).request_count <= rate_limit,
{
}

/// Law: after a window rollover (more than `WINDOW_LENGTH` time units since
/// the window started), the next evaluation is admitted whenever the limit
/// allows any requests at all, the count resets to 1 (the evaluation itself
/// counts), the limited flag clears, and the window restarts at `now` —
/// regardless of the credential's prior state.
pub proof fn lemma_rollover_resets(k: ApiKey, rate_limit: u32, now: u64)
    requires
        now - k.last_request_time > WINDOW_LENGTH,
        rate_limit >= 1,
    ensures
        admits(k, rate_limit, now),
        evaluated(k, rate_limit, now).request_count == 1,
        !evaluated(k, rate_limit, now).limited,
        evaluated(k, rate_limit, now).last_request_time == now,
{
}

/// A run of evaluations that all fall within the credential's current window
/// (so the window never rolls over): each is admitted exactly while the
/// count is still below the limit, the count climbs to the limit and stops
/// there, the limited flag ends up set exactly when some evaluation was
/// denied, and the window start never moves.
pub proof fn lemma_fixed_window_general(k: ApiKey, rate_limit: u32, times: Seq<u64>)
    requires
        k.request_count <= rate_limit,
        k.limited ==> k.request_count == rate_limit,
        forall|t: int|
            0 <= t < times.len() ==> #[trigger] times[t] - k.last_request_time <= WINDOW_LENGTH,
    ensures
        admit_results(k, rate_limit, times).len() == times.len(),
        forall|t: int|
            0 <= t < times.len() ==> #[trigger] admit_results(k, rate_limit, times)[t] == (
            k.request_count + t < rate_limit),
        evaluated_seq(k, rate_limit, times).request_count as int == if k.request_count
            + times.len() <= rate_limit {
            k.request_count + times.len()
        } else {
            rate_limit as int
        },
        evaluated_seq(k, rate_limit, times).limited == if times.len() == 0 {
            k.limited
        } else {
            k.request_count + times.len() > rate_limit
        },
        evaluated_seq(k, rate_limit, times).last_request_time == k.last_request_time,
        evaluated_seq(k, rate_limit, times).key == k.key,
        evaluated_seq(k, rate_limit, times).user == k.user,
    decreases times.len(),
{
    if times.len() > 0 {
        let k1 = evaluated(k, rate_limit, times[0]);
        assert(!rolls_over(k, times[0]));
        lemma_fixed_window_general(k1, rate_limit, times.drop_first());
        assert forall|t: int| 0 <= t < times.len() implies #[trigger] admit_results(
            k,
            rate_limit,
            times,
        )[t] == (k.request_count + t < rate_limit) by {
            if t > 0 {
                assert(admit_results(k1, rate_limit, times.drop_first())[t - 1] == (
                k1.request_count + (t - 1) < rate_limit));
            }
        }
    }
}

/// Law: a fresh credential evaluated any number of times within one window
/// is admitted on exactly the first `rate_limit` evaluations and denied on
/// every later one — in particular, after exactly `rate_limit` admitted
/// requests, the next evaluation in the same window is denied. The count
/// climbs to the limit and never past it, and the credential ends up marked
/// limited exactly when more than `rate_limit` evaluations were made.
pub proof fn lemma_fresh_window_admits(k: ApiKey, rate_limit: u32, times: Seq<u64>)
    requires
        k.request_count == 0,
        !k.limited,
        forall|t: int|
            0 <= t < times.len() ==> #[trigger] times[t] - k.last_request_time <= WINDOW_LENGTH,
    ensures
        admit_results(k, rate_limit, times).len() == times.len(),
        forall|t: int|
            0 <= t < times.len() ==> #[trigger] admit_results(k, rate_limit, times)[t] == (t
                < rate_limit),
        evaluated_seq(k, rate_limit, times).request_count as int == if times.len() <= rate_limit {
            times.len() as int
        } else {
            rate_limit as int
        },
        evaluated_seq(k, rate_limit, times).limited == (times.len() > rate_limit),
        evaluated_seq(k, rate_limit, times).last_request_time == k.last_request_time,
{
    lemma_fixed_window_general(k, rate_limit, times);
}

/// The current time in whole time units, clamping a pre-epoch clock to zero
/// so that window arithmetic stays within `u64`.
pub fn current_time() -> u64 {
    let t: i64 = crate::ext::now_timestamp();
    if t < 0 {
        0
    } else {
        t as u64
    }
}

impl ApiKey {
    /// A freshly issued credential: a new random identifier, no owning user,
    /// not limited, an empty count, and a window starting now.
    pub fn new() -> (k: ApiKey)
        ensures
            k.user is None,
            !k.limited,
            k.request_count == 0,
            k.key@.len() == 36,
    {
        ApiKey {
            key: crate::ext::fresh_key(),
            user: None,
            limited: false,
            request_count: 0,
            last_request_time: current_time(),
        }
    }

    /// Evaluate one request against this credential at the current wall-clock
    /// time: [`ApiKey::can_request_at`] at some time read from the clock.
    pub fn can_request(&mut self, rate_limit: u32) -> (admitted: bool)
        ensures
            exists|now: u64|
                admitted == #[trigger] admits(*old(self), rate_limit, now) && *final(self)
                    == evaluated(*old(self), rate_limit, now),
    {
        let now: u64 = current_time();
        self.can_request_at(rate_limit, now)
    }

    /// Evaluate one request against this credential at time `now`.
    ///
    /// If more than `WINDOW_LENGTH` time units have passed since the window
    /// started, the window is hard-reset (count to zero, window start to
    /// `now`, limited flag cleared) before the request is counted. The
    /// request is admitted exactly when the count is then below
    /// `rate_limit`; a denial sets the limited flag and leaves the count
    /// unchanged.
    pub fn can_request_at(&mut self, rate_limit: u32, now: u64) -> (admitted: bool)
        ensures
            admitted == admits(*old(self), rate_limit, now),
            *final(self) == evaluated(*old(self), rate_limit, now),
    {
        if now > self.last_request_time && now - self.last_request_time > WINDOW_LENGTH {
            self.request_count = 0;
            self.last_request_time = now;
            self.limited = false;
        }
        if self.request_count < rate_limit {
            self.request_count = self.request_count + 1;
            true
        } else {
            self.limited = true;
            false
        }
    }
}

} // verus!
