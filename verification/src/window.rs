//! The window selector: picks the contiguous run of hourly samples to
//! display, anchored at the caller-supplied "now" instant. A sample is
//! eligible while its covering hour has not fully elapsed, that is while the
//! next sample's timestamp is not yet in the past; the final sample, having
//! no successor, is never eligible.

use vstd::prelude::*;

use crate::time::Timestamp;
use crate::weather::WeatherData;

verus! {

/// A derived, non-owning view into an hourly series: the first chosen index
/// and how many consecutive samples are chosen.
#[derive(Debug, Clone, Copy, PartialEq, Eq, Structural)]
pub struct DisplayWindow {
    pub start: usize,
    pub count: usize,
}

/// The first index at or after `i` whose sample is eligible: its covering
/// hour ends strictly after `now`. Where none is, the scan stops at the
/// final index.
pub open spec fn spec_window_start_from(times: Seq<Timestamp>, now: Timestamp, i: nat) -> nat
    decreases times.len() - i,
{
    if i + 1 >= times.len() {
        i
    } else if now.spec_lt(times[i as int + 1]) {
        i
    } else {
        spec_window_start_from(times, now, (i + 1) as nat)
    }
}

/// The start of the display window: the first eligible index, scanning from
/// the head of the series.
pub open spec fn spec_window_start(times: Seq<Timestamp>, now: Timestamp) -> int {
    spec_window_start_from(times, now, 0) as int
}

/// The size of the display window: the requested maximum, capped by how many
/// samples from the start still have a successor.
pub open spec fn spec_window_count(times: Seq<Timestamp>, now: Timestamp, max: int) -> int {
    let avail = times.len() - 1 - spec_window_start(times, now);
    if max <= avail {
        max
    } else {
        avail
    }
}

/// The window that selection yields.
pub open spec fn spec_selected_window(times: Seq<Timestamp>, now: Timestamp, max: int) -> DisplayWindow {
    DisplayWindow {
        start: spec_window_start(times, now) as usize,
        count: spec_window_count(times, now, max) as usize,
    }
}

/// The scan stays within the series, lands on an eligible index where it is
/// not the final one, and skips only samples whose hour has elapsed.
pub proof fn lemma_window_start_from_bounds(times: Seq<Timestamp>, now: Timestamp, i: nat)
    requires
        i < times.len(),
    ensures
        i <= spec_window_start_from(times, now, i) < times.len(),
        spec_window_start_from(times, now, i) + 1 < times.len() ==> now.spec_lt(
            times[spec_window_start_from(times, now, i) as int + 1],
        ),
        forall|j: int|
            i <= j < spec_window_start_from(times, now, i) ==> !now.spec_lt(
                #[trigger] times[j + 1],
            ),
    decreases times.len() - i,
{
    if i + 1 >= times.len() {
    } else if now.spec_lt(times[i as int + 1]) {
    } else {
        lemma_window_start_from_bounds(times, now, (i + 1) as nat);
    }
}

/// Adjacent ascending timestamps ascend pairwise.
pub proof fn lemma_times_pairwise(times: Seq<Timestamp>, i: int, j: int)
    requires
        forall|k: int|
            0 <= k < times.len() - 1 ==> (#[trigger] times[k]).spec_lt(times[k + 1]),
        0 <= i <= j < times.len(),
    ensures
        times[i].spec_le(times[j]),
    decreases j - i,
{
    if i < j {
        lemma_times_pairwise(times, i + 1, j);
    }
}

/// Selects the display window: scanning forward from the head of the series,
/// it skips every sample whose covering hour has elapsed relative to `now`,
/// then takes up to `max` consecutive samples that still have a successor.
/// `now` is taken once, as given, for the whole scan. A series of one sample
/// yields an empty window: that is no error, only "no upcoming data".
pub fn select_window(data: &WeatherData, max: usize, now: &Timestamp) -> (w: DisplayWindow)
    requires
        data.wf(),
    ensures
        w == spec_selected_window(data@.datetime, *now, max as int),
        w.count <= max,
        w.start + w.count < data.spec_len(),
{
    let ghost times = data@.datetime;
    let n = data.datetime.len();
    let mut s: usize = 0;
    while s + 1 < n && data.datetime[s + 1].le(now)
        invariant
            data.wf(),
            times == data@.datetime,
            n == times.len(),
            s < n,
            spec_window_start_from(times, *now, 0) == spec_window_start_from(
                times,
                *now,
                s as nat,
            ),
        decreases n - s,
    {
        proof {
            let t1 = times[s as int + 1];
            crate::time::lemma_le_total(*now, t1);
            assert(!now.spec_lt(t1));
        }
        s += 1;
    }
    proof {
        if s + 1 < n {
            let t1 = times[s as int + 1];
            crate::time::lemma_le_total(*now, t1);
        }
        assert(spec_window_start(times, *now) == s as int);
    }
    let avail = n - 1 - s;
    let count = if max <= avail {
        max
    } else {
        avail
    };
    DisplayWindow { start: s, count }
}

/// Every sample inside the selected window is eligible: its covering hour
/// ends strictly after `now`; and every sample before the window's start was
/// skipped because its hour had elapsed.
pub proof fn lemma_window_eligible(times: Seq<Timestamp>, now: Timestamp, max: int)
    requires
        times.len() >= 1,
        max >= 0,
        forall|k: int|
            0 <= k < times.len() - 1 ==> (#[trigger] times[k]).spec_lt(times[k + 1]),
    ensures
        forall|k: int|
            spec_window_start(times, now) <= k < spec_window_start(times, now)
                + spec_window_count(times, now, max) ==> k + 1 < times.len() && now.spec_lt(
                #[trigger] times[k + 1],
            ),
        forall|i: int|
            0 <= i < spec_window_start(times, now) ==> !now.spec_lt(#[trigger] times[i + 1]),
{
    lemma_window_start_from_bounds(times, now, 0);
    let s = spec_window_start(times, now);
    let c = spec_window_count(times, now, max);
    assert forall|k: int| s <= k < s + c implies k + 1 < times.len() && now.spec_lt(
        #[trigger] times[k + 1],
    ) by {
        assert(now.spec_lt(times[s + 1]));
        lemma_times_pairwise(times, s + 1, k + 1);
        crate::time::lemma_lt_le_transitive(now, times[s + 1], times[k + 1]);
    }
}

/// For a series of at least two samples, the selected window never holds
/// more than `max` samples and never reaches the final index.
pub proof fn lemma_window_bounded(times: Seq<Timestamp>, now: Timestamp, max: int)
    requires
        times.len() >= 2,
        max >= 0,
    ensures
        spec_window_count(times, now, max) <= max,
        spec_window_start(times, now) + spec_window_count(times, now, max) <= times.len() - 1,
{
    lemma_window_start_from_bounds(times, now, 0);
}

/// Where every sample's covering hour has elapsed relative to `now` — every
/// successor timestamp is at or before `now` — the selected window is empty.
pub proof fn lemma_window_empty_when_elapsed(times: Seq<Timestamp>, now: Timestamp, max: int)
    requires
        times.len() >= 1,
        max >= 0,
        forall|i: int| 1 <= i < times.len() ==> (#[trigger] times[i]).spec_le(now),
    ensures
        spec_window_count(times, now, max) == 0,
{
    lemma_window_start_from_bounds(times, now, 0);
    let s = spec_window_start(times, now);
    if s + 1 < times.len() {
        assert(now.spec_lt(times[s + 1]));
        assert(times[s + 1].spec_le(now));
        crate::time::lemma_le_total(now, times[s + 1]);
        assert(false);
    }
}

} // verus!
