//! Counting visits by the day.

use crate::clock::{day_text, display_day, LocalTime};
use crate::site::INDEX_PAGE;
use crate::text::{optional_text, same_text};
use vstd::prelude::*;

verus! {

/// The visits of a day; the day in days since 1970-01-01.
#[derive(Clone, Copy, Debug, PartialEq, Eq, Structural)]
pub struct VisitStats {
    pub date: i64,
    pub index_visits: u64,
    pub total_visits: u64,
}

/// What the statistics of a day say.
pub struct StatsView {
    pub date: int,
    pub index_visits: int,
    pub total_visits: int,
}

impl View for VisitStats {
    type V = StatsView;

    open spec fn view(&self) -> StatsView {
        StatsView {
            date: self.date as int,
            index_visits: self.index_visits as int,
            total_visits: self.total_visits as int,
        }
    }
}

impl VisitStats {
    /// The day as a calendar date.
    pub fn date_text(&self) -> (r: Option<String>)
        ensures
            optional_text(r) == day_text(self@.date),
    {
        display_day(self.date)
    }
}

/// Counts the visits since the last reset: those of the index page and those of
/// any page.
pub struct VisitCounter {
    index_visits: u64,
    total_visits: u64,
    last_reset: LocalTime,
}

/// What a counter has counted.
pub struct CounterView {
    pub index_visits: int,
    pub total_visits: int,
    pub last_reset: LocalTime,
}

impl View for VisitCounter {
    type V = CounterView;

    closed spec fn view(&self) -> CounterView {
        CounterView {
            index_visits: self.index_visits as int,
            total_visits: self.total_visits as int,
            last_reset: self.last_reset,
        }
    }
}

/// The statistics of the day of the last reset.
pub open spec fn day_stats(counter: CounterView) -> StatsView {
    StatsView {
        date: counter.last_reset.day(),
        index_visits: counter.index_visits,
        total_visits: counter.total_visits,
    }
}

/// The counter with one visit more.
pub open spec fn counted(counter: CounterView, path: Seq<char>) -> CounterView {
    CounterView {
        index_visits: counter.index_visits + if path == INDEX_PAGE@ {
            1int
        } else {
            0int
        },
        total_visits: counter.total_visits + 1,
        last_reset: counter.last_reset,
    }
}

/// A counter that was reset.
pub open spec fn fresh_counter(now: LocalTime) -> CounterView {
    CounterView { index_visits: 0, total_visits: 0, last_reset: now }
}

/// What a visit makes of the counter, and the statistics that it closes: the
/// visit is counted first; on another day than that of the last reset, the
/// count, this visit with it, is closed and the counter starts again.
pub open spec fn visited(counter: CounterView, path: Seq<char>, now: LocalTime) -> (
    CounterView,
    Option<StatsView>,
) {
    if now.day() != counter.last_reset.day() {
        (fresh_counter(now), Some(day_stats(counted(counter, path))))
    } else {
        (counted(counter, path), None)
    }
}

/// What optional statistics say.
pub open spec fn optional_stats(stats: Option<VisitStats>) -> Option<StatsView> {
    match stats {
        Some(stats) => Some(stats@),
        None => None,
    }
}

impl VisitCounter {
    #[verifier::type_invariant]
    spec fn index_within_total(self) -> bool {
        self.index_visits <= self.total_visits
    }

    /// A counter that has counted nothing.
    pub fn new(now: LocalTime) -> (r: VisitCounter)
        ensures
            r@ == fresh_counter(now),
    {
        VisitCounter { index_visits: 0, total_visits: 0, last_reset: now }
    }

    /// How many visits were counted, of any page.
    pub fn total_visits(&self) -> (r: u64)
        ensures
            r == self@.total_visits,
    {
        self.total_visits
    }

    /// When the counter was last reset.
    pub fn last_reset(&self) -> (r: LocalTime)
        ensures
            r == self@.last_reset,
    {
        self.last_reset
    }

    /// The statistics of the day of the last reset, so far. The index page never
    /// has more visits than all pages together.
    pub fn stats(&self) -> (r: VisitStats)
        ensures
            r@ == day_stats(self@),
            r.index_visits <= r.total_visits,
    {
        proof {
            use_type_invariant(self);
        }
        VisitStats {
            date: self.last_reset.date(),
            index_visits: self.index_visits,
            total_visits: self.total_visits,
        }
    }

    /// Counts a visit of `path` at the time `now`, and returns the statistics
    /// that it closes, if it comes on another day than that of the last reset.
    pub fn record(&mut self, path: &str, now: LocalTime) -> (r: Option<VisitStats>)
        requires
            old(self)@.total_visits < u64::MAX,
        ensures
            (final(self)@, optional_stats(r)) == visited(old(self)@, path@, now),
            r matches Some(stats) ==> stats.index_visits <= stats.total_visits,
    {
        proof {
            use_type_invariant(&*self);
        }
        self.total_visits = self.total_visits + 1;
        if same_text(path, INDEX_PAGE) {
            self.index_visits = self.index_visits + 1;
        }
        if now.date() != self.last_reset.date() {
            let closed: VisitStats = self.stats();
            self.index_visits = 0;
            self.total_visits = 0;
            self.last_reset = now;
            Some(closed)
        } else {
            None
        }
    }
}

/// A visit: the path and the time.
pub struct Visit {
    pub path: Seq<char>,
    pub time: LocalTime,
}

/// What a series of visits makes of the counter, and the statistics that they
/// close, in order.
pub open spec fn visited_all(counter: CounterView, visits: Seq<Visit>) -> (
    CounterView,
    Seq<StatsView>,
)
    decreases visits.len(),
{
    if visits.len() == 0 {
        (counter, Seq::empty())
    } else {
        let (before, closed) = visited_all(counter, visits.drop_last());
        let (after, stats) = visited(before, visits.last().path, visits.last().time);
        match stats {
            Some(stats) => (after, closed.push(stats)),
            None => (after, closed),
        }
    }
}

/// How many of the visits went to the index page.
pub open spec fn index_count(visits: Seq<Visit>) -> int
    decreases visits.len(),
{
    if visits.len() == 0 {
        0
    } else {
        index_count(visits.drop_last()) + if visits.last().path == INDEX_PAGE@ {
            1int
        } else {
            0int
        }
    }
}

/// All visits in a list of statistics.
pub open spec fn total_sum(closed: Seq<StatsView>) -> int
    decreases closed.len(),
{
    if closed.len() == 0 {
        0
    } else {
        total_sum(closed.drop_last()) + closed.last().total_visits
    }
}

/// All visits of the index page in a list of statistics.
pub open spec fn index_sum(closed: Seq<StatsView>) -> int
    decreases closed.len(),
{
    if closed.len() == 0 {
        0
    } else {
        index_sum(closed.drop_last()) + closed.last().index_visits
    }
}

/// No visit is lost or counted twice: those in the closed statistics and those
/// still in the counter are together the ones that came, on top of what the
/// counter held before.
pub proof fn law_no_visit_lost(counter: CounterView, visits: Seq<Visit>)
    ensures
        total_sum(visited_all(counter, visits).1) + visited_all(counter, visits).0.total_visits
            == counter.total_visits + visits.len(),
        index_sum(visited_all(counter, visits).1) + visited_all(counter, visits).0.index_visits
            == counter.index_visits + index_count(visits),
    decreases visits.len(),
{
    if visits.len() > 0 {
        law_no_visit_lost(counter, visits.drop_last());
        let (before, closed) = visited_all(counter, visits.drop_last());
        if let Some(stats) = visited(before, visits.last().path, visits.last().time).1 {
            assert(closed.push(stats).drop_last() == closed);
        }
    }
}

/// The index page never has more visits than all pages together, neither in the
/// counter nor in closed statistics.
pub proof fn law_index_within_total(counter: CounterView, visits: Seq<Visit>)
    requires
        counter.index_visits <= counter.total_visits,
    ensures
        visited_all(counter, visits).0.index_visits <= visited_all(counter, visits).0.total_visits,
        forall|i: int|
            0 <= i < visited_all(counter, visits).1.len() ==> (#[trigger] visited_all(
                counter,
                visits,
            ).1[i]).index_visits <= visited_all(counter, visits).1[i].total_visits,
    decreases visits.len(),
{
    if visits.len() > 0 {
        law_index_within_total(counter, visits.drop_last());
    }
}

/// As long as the day of the last reset lasts, nothing is closed and every visit
/// is in the counter.
pub proof fn law_same_day_accumulates(counter: CounterView, visits: Seq<Visit>)
    requires
        forall|i: int|
            0 <= i < visits.len() ==> (#[trigger] visits[i]).time.day() == counter.last_reset.day(),
    ensures
        visited_all(counter, visits).1 == Seq::<StatsView>::empty(),
        visited_all(counter, visits).0 == (CounterView {
            index_visits: counter.index_visits + index_count(visits),
            total_visits: counter.total_visits + visits.len(),
            last_reset: counter.last_reset,
        }),
    decreases visits.len(),
{
    if visits.len() > 0 {
        let fewer = visits.drop_last();
        assert forall|i: int| 0 <= i < fewer.len() implies (#[trigger] fewer[i]).time.day()
            == counter.last_reset.day() by {
            assert(fewer[i] == visits[i]);
        }
        law_same_day_accumulates(counter, fewer);
        assert(visits.last() == visits[visits.len() - 1]);
    }
}

/// A visit on any other day than that of the last reset, earlier or later and
/// however many days lie between, closes the statistics of the day of the last
/// reset, this visit with them, and leaves the counter at nothing, reset at the
/// time of the visit.
pub proof fn law_visit_on_another_day(counter: CounterView, path: Seq<char>, now: LocalTime)
    requires
        now.day() < counter.last_reset.day() || counter.last_reset.day() < now.day(),
    ensures
        ({
            let (after, closed) = visited(counter, path, now);
            &&& closed is Some
            &&& closed->0.date == counter.last_reset.day()
            &&& closed->0.total_visits == counter.total_visits + 1
            &&& path == "index.html"@ ==> closed->0.index_visits == counter.index_visits + 1
            &&& path != "index.html"@ ==> closed->0.index_visits == counter.index_visits
            &&& after.index_visits == 0
            &&& after.total_visits == 0
            &&& after.last_reset == now
        }),
{
}

/// A visit on the day of the last reset closes nothing and is counted, as one of
/// the index page too if it went there; the last reset stays.
pub proof fn law_visit_on_same_day(counter: CounterView, path: Seq<char>, now: LocalTime)
    requires
        now.day() == counter.last_reset.day(),
    ensures
        ({
            let (after, closed) = visited(counter, path, now);
            &&& closed is None
            &&& after.total_visits == counter.total_visits + 1
            &&& path == "index.html"@ ==> after.index_visits == counter.index_visits + 1
            &&& path != "index.html"@ ==> after.index_visits == counter.index_visits
            &&& after.last_reset == counter.last_reset
        }),
{
}

/// After every visit the counter is at the day of that visit, so that the next
/// visit on the same day closes nothing, whatever came before.
pub proof fn law_counter_follows_day(
    counter: CounterView,
    path: Seq<char>,
    now: LocalTime,
    next_path: Seq<char>,
    later: LocalTime,
)
    ensures
        visited(counter, path, now).0.last_reset.day() == now.day(),
        visited(visited(counter, path, now).0, next_path, later).1 is Some <==> later.day()
            != now.day(),
{
}

/// The statistics of a counter are its counts, dated to the day of its last
/// reset; those of one that was just reset are nothing, dated to that day.
pub proof fn law_statistics_are_the_counts(counter: CounterView, now: LocalTime)
    ensures
        day_stats(counter).date == counter.last_reset.day(),
        day_stats(counter).index_visits == counter.index_visits,
        day_stats(counter).total_visits == counter.total_visits,
        day_stats(fresh_counter(now)).date == now.day(),
        day_stats(fresh_counter(now)).index_visits == 0,
        day_stats(fresh_counter(now)).total_visits == 0,
        fresh_counter(now).last_reset == now,
{
}

/// What statistics say is what their fields hold.
pub proof fn law_statistics_say_their_fields(stats: VisitStats)
    ensures
        stats@.date == stats.date,
        stats@.index_visits == stats.index_visits,
        stats@.total_visits == stats.total_visits,
        optional_stats(Some(stats)) == Some(stats@),
        optional_stats(None) is None,
{
}

} // verus!
