//! Request windows: how a stretch of missing history is cut into date ranges
//! that a provider accepts, newest first, and how far along a walk is.

use vstd::prelude::*;
use crate::calendar::Date;
use crate::calendar::month_start_days;

verus! {

/// How far one request may reach back.
#[derive(Clone, Copy, Debug, PartialEq, Eq, Structural)]
pub enum WindowPolicy {
    /// Every request covers at most this many days.
    FixedDays { days: u32 },
    /// Every request stays within one calendar month.
    CalendarMonth,
}

/// The half-open range of dates `[start, end)` of one request.
#[derive(Clone, Copy, Debug, PartialEq, Eq, Structural)]
pub struct Window {
    pub start: Date,
    pub end: Date,
}

/// `candidate`, or `until` where the candidate lies before it.
pub open spec fn not_before(candidate: int, until: int) -> int {
    if candidate < until {
        until
    } else {
        candidate
    }
}

impl WindowPolicy {
    /// Whether every step of the policy goes back by at least a day.
    pub open spec fn steps_back(self) -> bool {
        match self {
            WindowPolicy::FixedDays { days } => days >= 1,
            WindowPolicy::CalendarMonth => true,
        }
    }

    /// Whether a window that ends on `end` and is not cut short starts before `end`.
    pub open spec fn looks_back(self, end: int) -> bool {
        match self {
            WindowPolicy::FixedDays { days } => days >= 1,
            WindowPolicy::CalendarMonth => month_start_days(end) < end,
        }
    }

    /// Where the newest window starts when nothing cuts it short.
    pub open spec fn first_candidate(self, today: int) -> int {
        match self {
            WindowPolicy::FixedDays { days } => today - days,
            WindowPolicy::CalendarMonth => month_start_days(today),
        }
    }

    /// Where the window before the one that starts on `start` starts when
    /// nothing cuts it short.
    pub open spec fn earlier_candidate(self, start: int) -> int {
        match self {
            WindowPolicy::FixedDays { days } => start - days,
            WindowPolicy::CalendarMonth => month_start_days(start - 1),
        }
    }

    /// Start of the newest window of a walk from `today` back to `until`.
    pub open spec fn first_start(self, today: int, until: int) -> int {
        not_before(self.first_candidate(today), until)
    }

    /// Start of the window that follows, further back, the one that starts
    /// on `start`. A window that starts on `until` is the last.
    pub open spec fn next_start(self, start: int, until: int) -> int {
        if start <= until {
            until
        } else {
            not_before(self.earlier_candidate(start), until)
        }
    }
}

impl Window {
    /// The window as a pair of day numbers.
    pub open spec fn span(self) -> (int, int) {
        (self.start.days as int, self.end.days as int)
    }

    /// Number of days in the window.
    pub fn length(&self) -> (days: i64)
        ensures
            days == self.end.days - self.start.days,
    {
        self.end.days_since(self.start)
    }
}

/// The windows as pairs of day numbers.
pub open spec fn spans(windows: Seq<Window>) -> Seq<(int, int)> {
    windows.map_values(|w: Window| w.span())
}

/// The windows that are requested, newest first, from the one that is
/// `[start, end)` on: a window is requested while it is not empty and does
/// not start before `until`, and the one after it ends where it starts.
pub open spec fn walk(policy: WindowPolicy, start: int, end: int, until: int) -> Seq<(int, int)>
    decreases end - until,
{
    if until <= start < end {
        seq![(start, end)] + walk(policy, policy.next_start(start, until), start, until)
    } else {
        Seq::empty()
    }
}

/// The windows of a whole pass from `today` back to `until`.
pub open spec fn planned(policy: WindowPolicy, today: int, until: int) -> Seq<(int, int)> {
    walk(policy, policy.first_start(today, until), today, until)
}

/// Where the newest window starts: as far back from `today` as the policy
/// reaches, but not before `until`.
pub fn first_window_start(policy: WindowPolicy, today: Date, until: Date) -> (start: Date)
    requires
        today.valid(),
        until.valid(),
    ensures
        start.days == policy.first_start(today.days as int, until.days as int),
        start.valid(),
        until.days < today.days && policy.looks_back(today.days as int) ==> start.days
            < today.days,
{
    match policy {
        WindowPolicy::FixedDays { days } => today.back_to_at_least(days, until),
        WindowPolicy::CalendarMonth => {
            match today.start_of_month() {
                Some(first) => {
                    if first.days < until.days {
                        until
                    } else {
                        first
                    }
                },
                None => until,
            }
        },
    }
}

/// Where the window before the one that starts on `start` starts: as far back
/// as the policy reaches, but not before `until`.
pub fn earlier_window_start(policy: WindowPolicy, start: Date, until: Date) -> (earlier: Date)
    requires
        start.valid(),
        until.valid(),
    ensures
        earlier.days == policy.next_start(start.days as int, until.days as int),
        earlier.valid(),
        until.days <= earlier.days,
        until.days <= start.days ==> earlier.days <= start.days,
        until.days < start.days && policy.steps_back() ==> earlier.days < start.days,
{
    if start.days <= until.days {
        return until;
    }
    match policy {
        WindowPolicy::FixedDays { days } => start.back_to_at_least(days, until),
        WindowPolicy::CalendarMonth => {
            let day_before = Date { days: start.days - 1 };
            match day_before.start_of_month() {
                Some(first) => {
                    if first.days < until.days {
                        until
                    } else {
                        first
                    }
                },
                None => until,
            }
        },
    }
}

/// Whether the windows lie end to end from `today` back to `until`: the
/// first ends on `today`, each of the others ends where the one before it
/// starts, the last starts on `until`, and none is empty.
pub open spec fn end_to_end(windows: Seq<Window>, today: Date, until: Date) -> bool {
    &&& windows.len() > 0 ==> windows[0].end == today && windows[windows.len() - 1].start == until
    &&& forall|i: int|
        0 <= i < windows.len() ==> (#[trigger] windows[i]).start.days < windows[i].end.days
    &&& forall|i: int|
        0 <= i < windows.len() - 1 ==> (#[trigger] windows[i]).start == windows[i + 1].end
}

/// In windows that lie end to end, a later window starts earlier.
pub proof fn lemma_starts_decrease(windows: Seq<Window>, today: Date, until: Date, i: int, j: int)
    requires
        end_to_end(windows, today, until),
        0 <= i <= j < windows.len(),
    ensures
        windows[j].start.days <= windows[i].start.days,
        i < j ==> windows[j].start.days < windows[i].start.days,
    decreases j - i,
{
    if i < j {
        lemma_starts_decrease(windows, today, until, i + 1, j);
        assert(windows[i].start == windows[i + 1].end);
        assert(windows[i + 1].start.days < windows[i + 1].end.days);
    }
}

/// The windows of a pass from `today` back to `until`, newest first.
///
/// Each window ends where the one before it starts, so the ends strictly
/// decrease from `today`; no window is empty or starts before `until`; and
/// the walk ends with the one window that starts on `until`, after no more
/// windows than there are days to cover. Nothing is requested when `until`
/// is not in the past, or when the policy does not reach back from `today`.
pub fn plan_windows(policy: WindowPolicy, today: Date, until: Date) -> (windows: Vec<Window>)
    requires
        today.valid(),
        until.valid(),
    ensures
        spans(windows@) == planned(policy, today.days as int, until.days as int),
        end_to_end(windows@, today, until),
        windows.len() > 0 <==> until.days <= policy.first_start(
            today.days as int,
            until.days as int,
        ) < today.days,
        until.days < today.days && policy.looks_back(today.days as int) ==> windows.len() > 0,
        until.days >= today.days ==> windows.len() == 0,
        windows.len() > 0 ==> windows[0].end == today,
        windows.len() > 0 ==> windows[windows.len() - 1].start == until,
        windows.len() > 0 ==> windows.len() <= today.days - until.days,
        forall|i: int|
            0 <= i < windows.len() ==> {
                &&& (#[trigger] windows[i]).start.days < windows[i].end.days
                &&& until.days <= windows[i].start.days
                &&& windows[i].start.valid()
                &&& windows[i].end.valid()
            },
        forall|i: int|
            0 <= i < windows.len() - 1 ==> {
                &&& (#[trigger] windows[i]).start == windows[i + 1].end
                &&& until.days < windows[i].start.days
            },
{
    let mut windows: Vec<Window> = Vec::new();
    let mut end = today;
    let mut start = first_window_start(policy, today, until);
    assert(spans(windows@) =~= Seq::<(int, int)>::empty());
    while until.days <= start.days && start.days < end.days
        invariant
            today.valid(),
            until.valid(),
            start.valid(),
            end.valid(),
            until.days <= end.days || windows.len() == 0,
            windows.len() + end.days <= today.days,
            spans(windows@) + walk(policy, start.days as int, end.days as int, until.days as int)
                == planned(policy, today.days as int, until.days as int),
            windows.len() == 0 ==> {
                &&& end == today
                &&& start.days == policy.first_start(today.days as int, until.days as int)
            },
            windows.len() > 0 ==> {
                &&& windows[0].end == today
                &&& windows[windows.len() - 1].start == end
                &&& start.days == policy.next_start(end.days as int, until.days as int)
                &&& until.days <= start.days <= end.days
                &&& until.days < end.days ==> start.days < end.days
                &&& until.days <= policy.first_start(today.days as int, until.days as int)
                    < today.days
            },
            forall|i: int|
                0 <= i < windows.len() ==> {
                    &&& (#[trigger] windows[i]).start.days < windows[i].end.days
                    &&& until.days <= windows[i].start.days
                    &&& windows[i].start.valid()
                    &&& windows[i].end.valid()
                },
            forall|i: int|
                0 <= i < windows.len() - 1 ==> {
                    &&& (#[trigger] windows[i]).start == windows[i + 1].end
                    &&& until.days < windows[i].start.days
                },
        decreases end.days - until.days,
    {
        let ghost before = windows@;
        let earlier = earlier_window_start(policy, start, until);
        proof {
            if until.days < start.days && !policy.steps_back() {
                // A policy that does not reach back never opens a window.
                if before.len() == 0 {
                    assert(start.days == today.days);
                } else {
                    assert(start.days == end.days);
                }
                assert(false);
            }
        }
        windows.push(Window { start, end });
        proof {
            assert(spans(windows@) =~= spans(before) + seq![(start.days as int, end.days as int)]);
            assert(spans(before) + (seq![(start.days as int, end.days as int)] + walk(
                policy,
                earlier.days as int,
                start.days as int,
                until.days as int,
            )) =~= spans(windows@) + walk(
                policy,
                earlier.days as int,
                start.days as int,
                until.days as int,
            ));
        }
        end = start;
        start = earlier;
    }
    windows
}

/// Share of a walk that is done, in percent, rounded to the nearest whole
/// number (a half rounds up): the part of `total_days` that is no longer
/// among `days_remaining`. A walk over no days at all is complete.
pub open spec fn percent_done(total_days: int, days_remaining: int) -> int {
    if total_days <= 0 {
        100
    } else {
        (200 * days_done(total_days, days_remaining) + total_days) / (2 * total_days)
    }
}

/// Days of a walk that are behind it: `total_days` less `days_remaining`,
/// kept between nothing and everything.
pub open spec fn days_done(total_days: int, days_remaining: int) -> int {
    if days_remaining <= 0 {
        total_days
    } else if days_remaining >= total_days {
        0
    } else {
        total_days - days_remaining
    }
}

/// The less of a walk remains, the more of it is done.
pub proof fn lemma_percent_done_grows(total_days: int, more_remaining: int, less_remaining: int)
    requires
        less_remaining <= more_remaining,
    ensures
        0 <= percent_done(total_days, more_remaining) <= percent_done(total_days, less_remaining)
            <= 100,
        less_remaining <= 0 ==> percent_done(total_days, less_remaining) == 100,
{
    if total_days > 0 {
        let more = days_done(total_days, less_remaining);
        let less = days_done(total_days, more_remaining);
        lemma_rounded_share(total_days, more);
        lemma_rounded_share(total_days, less);
        vstd::arithmetic::div_mod::lemma_div_is_ordered(
            200 * less + total_days,
            200 * more + total_days,
            2 * total_days,
        );
    }
}

/// How far along a walk over `total_days` days is when `days_remaining` of
/// them are still to be fetched, in percent.
pub fn progress_percentage(total_days: i64, days_remaining: i64) -> (percentage: u32)
    ensures
        percentage == percent_done(total_days as int, days_remaining as int),
        percentage <= 100,
        total_days > 0 ==> {
            let done = days_done(total_days as int, days_remaining as int);
            2 * total_days * percentage - total_days <= 200 * done < 2 * total_days * percentage
                + total_days
        },
        total_days > 0 && days_remaining <= 0 ==> percentage == 100,
{
    if total_days <= 0 {
        return 100;
    }
    let done: i128 = if days_remaining <= 0 {
        total_days as i128
    } else if days_remaining >= total_days {
        0
    } else {
        total_days as i128 - days_remaining as i128
    };
    let total: i128 = total_days as i128;
    let rounded: i128 = (200 * done + total) / (2 * total);
    proof {
        lemma_rounded_share(total as int, done as int);
    }
    rounded as u32
}

/// The rounded share of `done` in `total` is the nearest whole percentage and
/// lies between 0 and 100.
pub proof fn lemma_rounded_share(total: int, done: int)
    requires
        total > 0,
        0 <= done <= total,
    ensures
        ({
            let p = (200 * done + total) / (2 * total);
            &&& 0 <= p <= 100
            &&& 2 * total * p - total <= 200 * done < 2 * total * p + total
            &&& done == total ==> p == 100
        }),
{
    let n = 200 * done + total;
    let d = 2 * total;
    let p = n / d;
    assert(n == d * p + n % d && 0 <= n % d < d) by {
        vstd::arithmetic::div_mod::lemma_fundamental_div_mod(n, d);
        vstd::arithmetic::div_mod::lemma_mod_bound(n, d);
    }
    assert(d * p == 2 * total * p) by (nonlinear_arith)
        requires
            d == 2 * total,
    ;
    assert(0 <= p <= 100) by (nonlinear_arith)
        requires
            n == d * p + n % d,
            0 <= n % d < d,
            0 <= n <= 201 * total,
            d == 2 * total,
            total > 0,
    ;
    if done == total {
        assert(p == 100) by (nonlinear_arith)
            requires
                n == d * p + n % d,
                0 <= n % d < d,
                n == 201 * total,
                d == 2 * total,
                total > 0,
        ;
    }
}

} // verus!
