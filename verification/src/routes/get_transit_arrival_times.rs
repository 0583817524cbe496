//! Arrival times at a set of stops, optionally for a set of route labels.

use vstd::prelude::*;
use crate::app_error::{internal_server_error, AppError, AppErrorView};
use crate::arrivals::{retain_route_labels, with_route_labels};
use crate::errors::TransitClientError;
use crate::model::{views, StopArrival};
use crate::records::StopInformation;
use crate::text::{clone_optional_text, optional_text, pieces_of, split_commas};
use crate::upstream::outcome_view;

verus! {

/// One arrival as the reply shows it.
pub struct StopResponseDataArrival {
    pub expected_arrival_time: Option<String>,
    pub minutes_until_arrival: Option<i64>,
    pub stop_id: String,
    pub route_label: String,
}

/// Model of a [`StopResponseDataArrival`].
pub struct ArrivalLine {
    pub expected_arrival_time: Option<Seq<char>>,
    pub minutes_until_arrival: Option<i64>,
    pub stop_id: Seq<char>,
    pub route_label: Seq<char>,
}

impl View for StopResponseDataArrival {
    type V = ArrivalLine;

    open spec fn view(&self) -> ArrivalLine {
        ArrivalLine {
            expected_arrival_time: optional_text(self.expected_arrival_time),
            minutes_until_arrival: self.minutes_until_arrival,
            stop_id: self.stop_id@,
            route_label: self.route_label@,
        }
    }
}

/// The arrivals of a reply.
pub struct TransitArrivalsData {
    pub arrivals: Vec<StopResponseDataArrival>,
}

impl View for TransitArrivalsData {
    type V = Seq<ArrivalLine>;

    open spec fn view(&self) -> Seq<ArrivalLine> {
        views(self.arrivals@)
    }
}

/// The reply: the arrivals under `data`.
pub struct TransitArrivalsResponse {
    pub data: TransitArrivalsData,
}

impl View for TransitArrivalsResponse {
    type V = Seq<ArrivalLine>;

    open spec fn view(&self) -> Seq<ArrivalLine> {
        self.data@
    }
}

/// The request parameters: stop identifiers and, optionally, route labels,
/// each list separated by commas.
pub struct GetTransitStopPayload {
    pub stop_ids: String,
    pub route_ids: Option<String>,
}

/// The test for a text that is not empty.
pub open spec fn is_filled() -> spec_fn(Seq<char>) -> bool {
    |piece: Seq<char>| piece.len() > 0
}

/// The stop identifiers that a request asks for: the pieces of the parameter
/// between commas.
pub open spec fn wanted_stops(stop_ids: Seq<char>) -> Seq<Seq<char>> {
    pieces_of(stop_ids, ',')
}

/// The route labels that a request wants: the non-empty pieces of the
/// parameter between commas; none where the parameter is absent.
pub open spec fn wanted_labels(route_ids: Option<Seq<char>>) -> Seq<Seq<char>> {
    match route_ids {
        Some(text) => pieces_of(text, ',').filter(is_filled()),
        None => Seq::empty(),
    }
}

/// An arrival as the reply shows it.
pub open spec fn line_of(arrival: StopArrival) -> ArrivalLine {
    ArrivalLine {
        expected_arrival_time: arrival.expected_arrival_time,
        minutes_until_arrival: arrival.minutes_until_arrival,
        stop_id: arrival.stop_id,
        route_label: arrival.route_label,
    }
}

/// Arrivals as the reply shows them, one for one.
pub open spec fn lines_of(arrivals: Seq<StopArrival>) -> Seq<ArrivalLine> {
    Seq::new(arrivals.len(), |i: int| line_of(arrivals[i]))
}

/// What the endpoint answers: the arrivals whose route label is wanted (all
/// of them where no label is wanted), in the order found; an internal server
/// error where the arrivals could not be found.
pub open spec fn arrival_times_reply(
    labels: Seq<Seq<char>>,
    found: Result<Vec<StopInformation>, TransitClientError>,
) -> Result<Seq<ArrivalLine>, AppErrorView> {
    match found {
        Ok(arrivals) => Ok(lines_of(with_route_labels(views(arrivals@), labels))),
        Err(_) => Err(internal_server_error()),
    }
}

impl GetTransitStopPayload {
    /// The stop identifiers asked for: the pieces of `stop_ids` between commas.
    pub fn stops(&self) -> (stop_ids: Vec<String>)
        ensures
            views(stop_ids@) == wanted_stops(self.stop_ids@),
    {
        split_commas(self.stop_ids.as_str())
    }

    /// The route labels wanted: the non-empty pieces of `route_ids` between
    /// commas; none where `route_ids` is absent.
    pub fn route_labels(&self) -> (labels: Vec<String>)
        ensures
            views(labels@) == wanted_labels(optional_text(self.route_ids)),
    {
        let mut labels: Vec<String> = Vec::new();
        proof {
            assert(views(labels@) =~= Seq::<Seq<char>>::empty());
        }
        match &self.route_ids {
            Some(text) => {
                let pieces = split_commas(text.as_str());
                let ghost all = views(pieces@);
                let ghost test = is_filled();
                let mut i: usize = 0;
                proof {
                    reveal(Seq::filter);
                    assert(views(labels@) =~= all.take(0).filter(test));
                }
                while i < pieces.len()
                    invariant
                        i <= pieces.len(),
                        all == views(pieces@),
                        test == is_filled(),
                        views(labels@) == all.take(i as int).filter(test),
                    decreases pieces.len() - i,
                {
                    let ghost before = views(labels@);
                    proof {
                        assert(all.take(i + 1) =~= all.take(i as int).push(all[i as int]));
                        all.take(i as int).lemma_filter_push(all[i as int], test);
                    }
                    if pieces[i].as_str().unicode_len() > 0 {
                        let label = pieces[i].clone();
                        labels.push(label);
                        proof {
                            assert(views(labels@) =~= before.push(label@));
                        }
                    }
                    i += 1;
                }
                proof {
                    assert(all.take(i as int) =~= all);
                }
            },
            None => {},
        }
        labels
    }
}

/// Builds the reply of the endpoint from the request parameters and what the
/// transit service found.
pub fn get_transit_arrival_times(
    payload: &GetTransitStopPayload,
    found: &Result<Vec<StopInformation>, TransitClientError>,
) -> (reply: Result<TransitArrivalsResponse, AppError>)
    ensures
        outcome_view(reply) == arrival_times_reply(
            wanted_labels(optional_text(payload.route_ids)),
            *found,
        ),
{
    let labels = payload.route_labels();
    show_arrival_times(&labels, found)
}

/// Builds the reply of the endpoint from the route labels wanted and what
/// the transit service found.
pub fn show_arrival_times(
    labels: &Vec<String>,
    found: &Result<Vec<StopInformation>, TransitClientError>,
) -> (reply: Result<TransitArrivalsResponse, AppError>)
    ensures
        outcome_view(reply) == arrival_times_reply(views(labels@), *found),
{
    match found {
        Ok(arrivals) => {
            let wanted = retain_route_labels(arrivals, labels);
            let ghost all = views(wanted@);
            let mut lines: Vec<StopResponseDataArrival> = Vec::new();
            let mut i: usize = 0;
            proof {
                assert(views(lines@) =~= lines_of(all).take(0));
            }
            while i < wanted.len()
                invariant
                    i <= wanted.len(),
                    all == views(wanted@),
                    views(lines@) == lines_of(all).take(i as int),
                decreases wanted.len() - i,
            {
                let ghost before = views(lines@);
                let line = StopResponseDataArrival {
                    expected_arrival_time: clone_optional_text(&wanted[i].expected_arrival_time),
                    minutes_until_arrival: wanted[i].minutes_until_arrival,
                    stop_id: wanted[i].stop_id.clone(),
                    route_label: wanted[i].route_label.clone(),
                };
                lines.push(line);
                proof {
                    assert(views(lines@) =~= before.push(line@));
                    assert(lines_of(all).take(i + 1) =~= lines_of(all).take(i as int).push(
                        lines_of(all)[i as int],
                    ));
                }
                i += 1;
            }
            proof {
                assert(lines_of(all).take(i as int) =~= lines_of(all));
            }
            Ok(TransitArrivalsResponse { data: TransitArrivalsData { arrivals: lines } })
        },
        Err(_) => Err(AppError::internal()),
    }
}

} // verus!
