//! Arrival records: their order by time until arrival, the route filter and
//! the merging of per-stop results.

use vstd::prelude::*;
use vstd::string::*;
use crate::clock::{instant_of_text, minutes_until, parse_rfc3339, whole_minutes, Instant};
use crate::model::{views, StopArrival, Visit};
use crate::records::StopInformation;
use crate::sorting::{ascending, is_stable_sort, lemma_filter_stable_sort, lemma_stable_insert};
use crate::text::{clone_optional_text, is_listed, optional_text};
use crate::types::response_formats::{GetStopInfoResponse, MonitoredStopVisit};

verus! {

/// Two visits are of the same line in the same direction.
pub open spec fn same_line(a: Visit, b: Visit) -> bool {
    a.published_line_name == b.published_line_name && a.direction_ref == b.direction_ref
}

/// The visit at position `i` is of the same line and direction as an earlier one.
pub open spec fn repeats_earlier(visits: Seq<Visit>, i: int) -> bool {
    exists|j: int| 0 <= j < i && same_line(#[trigger] visits[j], visits[i])
}

/// The visits without those that repeat the line and direction of an earlier
/// visit: of each line and direction the first visit, in upstream order.
pub open spec fn first_visits(visits: Seq<Visit>) -> Seq<Visit>
    decreases visits.len(),
{
    if visits.len() == 0 {
        Seq::empty()
    } else {
        let front = first_visits(visits.drop_last());
        if repeats_earlier(visits, visits.len() - 1) {
            front
        } else {
            front.push(visits.last())
        }
    }
}

/// The test for a visit of the same line and direction as `visit`.
pub open spec fn is_same_line(visit: Visit) -> spec_fn(Visit) -> bool {
    |other: Visit| same_line(other, visit)
}

/// Among the first visits there is exactly one of each line and direction
/// that the visits hold, and none of any other.
pub proof fn lemma_one_visit_per_line(visits: Seq<Visit>, visit: Visit)
    ensures
        first_visits(visits).filter(is_same_line(visit)).len() == if exists|i: int|
            0 <= i < visits.len() && same_line(#[trigger] visits[i], visit) {
            1nat
        } else {
            0nat
        },
    decreases visits.len(),
{
    let test = is_same_line(visit);
    if visits.len() == 0 {
        reveal(Seq::filter);
        assert(first_visits(visits).filter(test) =~= Seq::<Visit>::empty());
    } else {
        let front = visits.drop_last();
        let last = visits.last();
        let n = visits.len() - 1;
        lemma_one_visit_per_line(front, visit);
        first_visits(front).lemma_filter_push(last, test);
        let in_front = exists|i: int| 0 <= i < front.len() && same_line(#[trigger] front[i], visit);
        let in_all = exists|i: int| 0 <= i < visits.len() && same_line(#[trigger] visits[i], visit);
        if in_front {
            let i = choose|i: int| 0 <= i < front.len() && same_line(#[trigger] front[i], visit);
            assert(same_line(visits[i], visit));
            assert(in_all);
            if same_line(last, visit) {
                assert(same_line(visits[i], visits[n]));
                assert(repeats_earlier(visits, n));
            }
        } else {
            if repeats_earlier(visits, n) {
                let j = choose|j: int| 0 <= j < n && same_line(#[trigger] visits[j], visits[n]);
                assert(front[j] == visits[j]);
                if same_line(last, visit) {
                    assert(same_line(front[j], visit));
                }
            }
            if same_line(last, visit) {
                assert(same_line(visits[n], visit));
                assert(in_all);
            } else if in_all {
                let i = choose|i: int|
                    0 <= i < visits.len() && same_line(#[trigger] visits[i], visit);
                assert(front[i] == visits[i]);
            }
        }
    }
}

/// The whole minutes from `now` until the time that a text gives; absent
/// where the text is absent or is not a date-time.
pub open spec fn minutes_until_text(expected: Option<Seq<char>>, now: Instant) -> Option<i64> {
    match expected {
        Some(text) => match instant_of_text(text) {
            Some(arrival) => minutes_until(arrival, now),
            None => None,
        },
        None => None,
    }
}

/// The arrival that a visit to the stop `stop_id` amounts to, given the
/// minutes until it is due.
pub open spec fn arrival_with(stop_id: Seq<char>, visit: Visit, minutes: Option<i64>) -> StopArrival {
    StopArrival {
        stop_id,
        route_id: visit.line_ref,
        route_label: visit.published_line_name,
        expected_arrival_time: visit.expected_arrival_time,
        minutes_until_arrival: minutes,
    }
}

/// The arrival that a visit to the stop `stop_id` amounts to at the time `now`.
pub open spec fn arrival_of(stop_id: Seq<char>, now: Instant, visit: Visit) -> StopArrival {
    arrival_with(stop_id, visit, minutes_until_text(visit.expected_arrival_time, now))
}

/// An arrival is consistent where it has no minutes unless its expected
/// time is there and is a date-time.
pub open spec fn is_consistent(arrival: StopArrival) -> bool {
    arrival.minutes_until_arrival is Some ==> match arrival.expected_arrival_time {
        Some(text) => instant_of_text(text) is Some,
        None => false,
    }
}

/// The arrivals that a list of visits amounts to, one for one.
pub open spec fn arrivals_of(stop_id: Seq<char>, now: Instant, visits: Seq<Visit>) -> Seq<
    StopArrival,
> {
    Seq::new(visits.len(), |i: int| arrival_of(stop_id, now, visits[i]))
}

/// The arrivals at a stop that a stop-monitoring reply reports: those of the
/// first visits of each line and direction in the reply's first delivery;
/// none where the reply has no delivery.
pub open spec fn stop_arrivals(stop_id: Seq<char>, now: Instant, deliveries: Seq<Seq<Visit>>) -> Seq<
    StopArrival,
> {
    if deliveries.len() == 0 {
        Seq::empty()
    } else {
        arrivals_of(stop_id, now, first_visits(deliveries[0]))
    }
}

/// The test for a route label among `labels`.
pub open spec fn has_label_among(labels: Seq<Seq<char>>) -> spec_fn(StopArrival) -> bool {
    |arrival: StopArrival| labels.contains(arrival.route_label)
}

/// The arrivals whose route label is among `labels`; all of them where
/// `labels` is empty.
pub open spec fn with_route_labels(arrivals: Seq<StopArrival>, labels: Seq<Seq<char>>) -> Seq<
    StopArrival,
> {
    if labels.len() == 0 {
        arrivals
    } else {
        arrivals.filter(has_label_among(labels))
    }
}

/// The models of a list of arrival lists.
pub open spec fn arrival_lists(lists: Seq<Vec<StopInformation>>) -> Seq<Seq<StopArrival>> {
    Seq::new(lists.len(), |i: int| views(lists[i]@))
}

/// Every arrival that a reply reports is consistent.
pub proof fn lemma_stop_arrivals_consistent(
    stop_id: Seq<char>,
    now: Instant,
    deliveries: Seq<Seq<Visit>>,
    i: int,
)
    requires
        0 <= i < stop_arrivals(stop_id, now, deliveries).len(),
    ensures
        is_consistent(stop_arrivals(stop_id, now, deliveries)[i]),
{
}

/// The position of an arrival in time: its minutes until arrival, or a value
/// beyond every number of minutes where these are absent.
pub open spec fn arrival_rank(arrival: StopArrival) -> int {
    match arrival.minutes_until_arrival {
        Some(minutes) => minutes as int,
        None => i64::MAX as int + 1,
    }
}

/// [`arrival_rank`] as a function value.
pub open spec fn arrival_order() -> spec_fn(StopArrival) -> int {
    |arrival: StopArrival| arrival_rank(arrival)
}

/// In a list in arrival order, an arrival due in fewer minutes stands before
/// one due in more, and an arrival without minutes stands behind every
/// arrival with minutes.
pub proof fn lemma_soonest_first(arrivals: Seq<StopArrival>, i: int, j: int)
    requires
        ascending(arrivals, arrival_order()),
        0 <= i < arrivals.len(),
        0 <= j < arrivals.len(),
    ensures
        arrivals[i].minutes_until_arrival is Some && arrivals[j].minutes_until_arrival is Some
            && arrivals[i].minutes_until_arrival->0 < arrivals[j].minutes_until_arrival->0 ==> i
            < j,
        arrivals[i].minutes_until_arrival is None && arrivals[j].minutes_until_arrival is Some
            ==> j < i,
{
    if j < i {
        assert(arrival_order()(arrivals[j]) <= arrival_order()(arrivals[i]));
    }
    if i < j {
        assert(arrival_order()(arrivals[i]) <= arrival_order()(arrivals[j]));
    }
}

/// It makes no difference whether arrivals are filtered by route label
/// before they are ordered or afterwards.
pub proof fn lemma_filter_then_sort(
    sorted: Seq<StopArrival>,
    given: Seq<StopArrival>,
    labels: Seq<Seq<char>>,
)
    requires
        is_stable_sort(sorted, given, arrival_order()),
    ensures
        is_stable_sort(
            with_route_labels(sorted, labels),
            with_route_labels(given, labels),
            arrival_order(),
        ),
{
    if labels.len() > 0 {
        lemma_filter_stable_sort(sorted, given, arrival_order(), has_label_among(labels));
    }
}

/// `earlier` is due strictly before `later`; an arrival without minutes is
/// due after every arrival with minutes.
pub fn arrives_sooner(earlier: &StopInformation, later: &StopInformation) -> (sooner: bool)
    ensures
        sooner == (arrival_rank(earlier@) < arrival_rank(later@)),
{
    match earlier.minutes_until_arrival {
        Some(first) => match later.minutes_until_arrival {
            Some(second) => first < second,
            None => true,
        },
        None => false,
    }
}

/// Orders arrivals by minutes until arrival, soonest first, those without
/// minutes last; arrivals that tie keep the order in which they were given.
pub fn sort_by_arrival(arrivals: Vec<StopInformation>) -> (sorted: Vec<StopInformation>)
    ensures
        is_stable_sort(views(sorted@), views(arrivals@), arrival_order()),
{
    let ghost given = views(arrivals@);
    let mut rest = arrivals;
    let mut sorted: Vec<StopInformation> = Vec::new();
    proof {
        assert(given.skip(given.len() as int) =~= Seq::<StopArrival>::empty());
        assert(views(sorted@) =~= Seq::<StopArrival>::empty());
        assert(views(rest@) =~= given.take(rest@.len() as int));
    }
    while rest.len() > 0
        invariant
            rest@.len() <= given.len(),
            views(rest@) == given.take(rest@.len() as int),
            is_stable_sort(views(sorted@), given.skip(rest@.len() as int), arrival_order()),
        decreases rest.len(),
    {
        let ghost before = rest@;
        let next = rest.pop().unwrap();
        let mut at: usize = 0;
        while at < sorted.len() && arrives_sooner(&sorted[at], &next)
            invariant
                at <= sorted.len(),
                forall|i: int|
                    0 <= i < at ==> arrival_rank(#[trigger] views(sorted@)[i]) < arrival_rank(
                        next@,
                    ),
            decreases sorted.len() - at,
        {
            at += 1;
        }
        proof {
            let ordered = views(sorted@);
            let tail = given.skip(before.len() as int);
            assert(forall|i: int|
                at <= i < ordered.len() ==> arrival_rank(next@) <= arrival_rank(
                    #[trigger] ordered[i],
                )) by {
                if at < ordered.len() {
                    assert(arrival_rank(next@) <= arrival_rank(ordered[at as int]));
                    assert(forall|i: int|
                        at < i < ordered.len() ==> (arrival_order())(ordered[at as int]) <= (
                        arrival_order())(#[trigger] ordered[i]));
                }
            }
            assert(next@ == views(before)[before.len() - 1]);
            lemma_stable_insert(ordered, tail, arrival_order(), next@, at as int);
            assert(seq![next@] + tail =~= given.skip(rest@.len() as int));
            assert(views(sorted@.insert(at as int, next)) =~= ordered.insert(at as int, next@));
            assert(views(rest@) =~= given.take(rest@.len() as int));
        }
        sorted.insert(at, next);
    }
    proof {
        assert(given.skip(0) =~= given);
    }
    sorted
}

/// The whole minutes from `now` until the expected time of an arrival;
/// none where the time is absent or is not a date-time.
pub fn minutes_until_expected(expected: &Option<String>, now: Instant) -> (minutes: Option<i64>)
    ensures
        minutes == minutes_until_text(optional_text(*expected), now),
{
    match expected {
        Some(text) => match parse_rfc3339(text.as_str()) {
            Some(arrival) => whole_minutes(arrival, now),
            None => None,
        },
        None => None,
    }
}

/// The arrival that one visit to a stop amounts to, given the minutes until
/// it is due.
pub fn arrival_with_minutes(stop_id: &str, visit: &MonitoredStopVisit, minutes: Option<i64>) -> (arrival:
    StopInformation)
    ensures
        arrival@ == arrival_with(stop_id@, visit@, minutes),
{
    let journey = &visit.MonitoredVehicleJourney;
    StopInformation {
        expected_arrival_time: clone_optional_text(&journey.MonitoredCall.ExpectedArrivalTime),
        minutes_until_arrival: minutes,
        stop_id: String::from_str(stop_id),
        route_label: journey.PublishedLineName.clone(),
        route_id: journey.LineRef.clone(),
    }
}

/// The arrival that one visit to a stop amounts to at the time `now`.
pub fn arrival_from_visit(stop_id: &str, now: Instant, visit: &MonitoredStopVisit) -> (arrival:
    StopInformation)
    ensures
        arrival@ == arrival_of(stop_id@, now, visit@),
{
    let minutes = minutes_until_expected(
        &visit.MonitoredVehicleJourney.MonitoredCall.ExpectedArrivalTime,
        now,
    );
    arrival_with_minutes(stop_id, visit, minutes)
}

/// Whether the visit at position `i` repeats the line and direction of an
/// earlier visit.
fn repeats_earlier_visit(visits: &Vec<MonitoredStopVisit>, i: usize) -> (repeats: bool)
    requires
        i < visits.len(),
    ensures
        repeats == repeats_earlier(views(visits@), i as int),
{
    let current = &visits[i].MonitoredVehicleJourney;
    let mut j: usize = 0;
    while j < i
        invariant
            j <= i,
            i < visits.len(),
            current == visits@[i as int].MonitoredVehicleJourney,
            forall|k: int| 0 <= k < j ==> !same_line(#[trigger] views(visits@)[k], views(visits@)[i as int]),
        decreases i - j,
    {
        let earlier = &visits[j].MonitoredVehicleJourney;
        if earlier.PublishedLineName == current.PublishedLineName && earlier.DirectionRef
            == current.DirectionRef {
            proof {
                assert(same_line(views(visits@)[j as int], views(visits@)[i as int]));
            }
            return true;
        }
        j += 1;
    }
    false
}

/// The arrivals at a stop that a stop-monitoring reply reports at the time
/// `now`: one for each line and direction, from its first visit.
pub fn collect_stop_arrivals(stop_id: &str, reply: &GetStopInfoResponse, now: Instant) -> (arrivals:
    Vec<StopInformation>)
    ensures
        views(arrivals@) == stop_arrivals(stop_id@, now, reply@),
{
    let mut arrivals: Vec<StopInformation> = Vec::new();
    let deliveries = &reply.Siri.ServiceDelivery.StopMonitoringDelivery;
    if deliveries.len() == 0 {
        proof {
            assert(views(arrivals@) =~= Seq::<StopArrival>::empty());
        }
        return arrivals;
    }
    let visits = &deliveries[0].MonitoredStopVisit;
    let ghost all = views(visits@);
    let mut i: usize = 0;
    proof {
        assert(reply@[0] == all);
        assert(views(arrivals@) =~= arrivals_of(stop_id@, now, first_visits(all.take(0))));
    }
    while i < visits.len()
        invariant
            i <= visits.len(),
            all == views(visits@),
            views(arrivals@) == arrivals_of(stop_id@, now, first_visits(all.take(i as int))),
        decreases visits.len() - i,
    {
        let ghost before = views(arrivals@);
        let ghost kept = first_visits(all.take(i as int));
        proof {
            assert(all.take(i + 1).drop_last() =~= all.take(i as int));
            assert(repeats_earlier(all.take(i + 1), i as int) == repeats_earlier(all, i as int)) by {
                if repeats_earlier(all, i as int) {
                    let j = choose|j: int| 0 <= j < i && same_line(#[trigger] all[j], all[i as int]);
                    assert(same_line(all.take(i + 1)[j], all.take(i + 1)[i as int]));
                }
                if repeats_earlier(all.take(i + 1), i as int) {
                    let j = choose|j: int|
                        0 <= j < i && same_line(
                            #[trigger] all.take(i + 1)[j],
                            all.take(i + 1)[i as int],
                        );
                    assert(same_line(all[j], all[i as int]));
                }
            }
        }
        if !repeats_earlier_visit(visits, i) {
            let arrival = arrival_from_visit(stop_id, now, &visits[i]);
            arrivals.push(arrival);
            proof {
                assert(views(arrivals@) =~= before.push(arrival@));
                assert(views(arrivals@) =~= arrivals_of(stop_id@, now, kept.push(all[i as int])));
            }
        }
        i += 1;
    }
    proof {
        assert(all.take(i as int) =~= all);
    }
    arrivals
}

/// Keeps the arrivals whose route label is among `labels`, in their order;
/// keeps all of them where `labels` is empty.
pub fn retain_route_labels(arrivals: &Vec<StopInformation>, labels: &Vec<String>) -> (kept: Vec<
    StopInformation,
>)
    ensures
        views(kept@) == with_route_labels(views(arrivals@), views(labels@)),
{
    let mut kept: Vec<StopInformation> = Vec::new();
    let ghost all = views(arrivals@);
    let ghost wanted = has_label_among(views(labels@));
    let unfiltered = labels.len() == 0;
    let mut i: usize = 0;
    proof {
        reveal(Seq::filter);
        assert(views(kept@) =~= all.take(0));
        assert(all.take(0).filter(wanted) =~= all.take(0));
    }
    while i < arrivals.len()
        invariant
            i <= arrivals.len(),
            all == views(arrivals@),
            unfiltered == (labels@.len() == 0),
            wanted == has_label_among(views(labels@)),
            views(kept@) == if unfiltered {
                all.take(i as int)
            } else {
                all.take(i as int).filter(wanted)
            },
        decreases arrivals.len() - i,
    {
        let ghost before = views(kept@);
        proof {
            assert(all.take(i + 1) =~= all.take(i as int).push(all[i as int]));
            all.take(i as int).lemma_filter_push(all[i as int], wanted);
        }
        if unfiltered || is_listed(labels, &arrivals[i].route_label) {
            let copy = arrivals[i].duplicate();
            kept.push(copy);
            proof {
                assert(views(kept@) =~= before.push(copy@));
            }
        }
        i += 1;
    }
    proof {
        assert(all.take(i as int) =~= all);
    }
    kept
}

/// Joins per-stop arrival lists into one list, in the order of the stops.
pub fn merge_arrivals(per_stop: &Vec<Vec<StopInformation>>) -> (merged: Vec<StopInformation>)
    ensures
        views(merged@) == arrival_lists(per_stop@).flatten(),
{
    let mut merged: Vec<StopInformation> = Vec::new();
    let ghost lists = arrival_lists(per_stop@);
    let mut i: usize = 0;
    proof {
        assert(lists.take(0) =~= Seq::<Seq<StopArrival>>::empty());
        assert(views(merged@) =~= lists.take(0).flatten());
    }
    while i < per_stop.len()
        invariant
            i <= per_stop.len(),
            lists == arrival_lists(per_stop@),
            views(merged@) == lists.take(i as int).flatten(),
        decreases per_stop.len() - i,
    {
        let list = &per_stop[i];
        let ghost done = views(merged@);
        let mut j: usize = 0;
        proof {
            assert(done + views(list@).take(0) =~= done);
        }
        while j < list.len()
            invariant
                j <= list.len(),
                views(merged@) == done + views(list@).take(j as int),
            decreases list.len() - j,
        {
            let ghost before = views(merged@);
            let copy = list[j].duplicate();
            merged.push(copy);
            proof {
                assert(views(merged@) =~= before.push(copy@));
                assert(views(merged@) =~= done + views(list@).take(j + 1));
            }
            j += 1;
        }
        proof {
            assert(views(list@).take(j as int) =~= views(list@));
            assert(lists.take(i + 1) =~= lists.take(i as int).push(views(list@)));
            lists.take(i as int).lemma_flatten_push(views(list@));
        }
        i += 1;
    }
    proof {
        assert(lists.take(i as int) =~= lists);
    }
    merged
}

} // verus!
