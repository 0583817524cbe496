//! The stop-monitoring reply: deliveries of visits, each a monitored vehicle
//! journey with the call it will make at the stop.

use vstd::prelude::*;
use crate::model::{views, Visit};
use crate::text::optional_text;

verus! {

/// The call of a vehicle at the monitored stop.
#[allow(non_snake_case)]
pub struct MonitoredCall {
    pub ExpectedArrivalTime: Option<String>,
}

impl View for MonitoredCall {
    type V = Option<Seq<char>>;

    open spec fn view(&self) -> Option<Seq<char>> {
        optional_text(self.ExpectedArrivalTime)
    }
}

/// A vehicle journey that serves the monitored stop.
#[allow(non_snake_case)]
pub struct MonitoredVehicleJourney {
    pub MonitoredCall: MonitoredCall,
    pub LineRef: String,
    pub DirectionRef: String,
    pub PublishedLineName: String,
}

impl View for MonitoredVehicleJourney {
    type V = Visit;

    open spec fn view(&self) -> Visit {
        Visit {
            expected_arrival_time: self.MonitoredCall@,
            line_ref: self.LineRef@,
            direction_ref: self.DirectionRef@,
            published_line_name: self.PublishedLineName@,
        }
    }
}

/// One visit of a vehicle to the monitored stop.
#[allow(non_snake_case)]
pub struct MonitoredStopVisit {
    pub MonitoredVehicleJourney: MonitoredVehicleJourney,
}

impl View for MonitoredStopVisit {
    type V = Visit;

    open spec fn view(&self) -> Visit {
        self.MonitoredVehicleJourney@
    }
}

/// The visits of one delivery, in upstream order.
#[allow(non_snake_case)]
pub struct StopMonitoringDelivery {
    pub MonitoredStopVisit: Vec<MonitoredStopVisit>,
}

impl View for StopMonitoringDelivery {
    type V = Seq<Visit>;

    open spec fn view(&self) -> Seq<Visit> {
        views(self.MonitoredStopVisit@)
    }
}

/// The deliveries of a reply.
#[allow(non_snake_case)]
pub struct ServiceDelivery {
    pub StopMonitoringDelivery: Vec<StopMonitoringDelivery>,
}

impl View for ServiceDelivery {
    type V = Seq<Seq<Visit>>;

    open spec fn view(&self) -> Seq<Seq<Visit>> {
        views(self.StopMonitoringDelivery@)
    }
}

/// The envelope of the service delivery.
#[allow(non_snake_case)]
pub struct Siri {
    pub ServiceDelivery: ServiceDelivery,
}

impl View for Siri {
    type V = Seq<Seq<Visit>>;

    open spec fn view(&self) -> Seq<Seq<Visit>> {
        self.ServiceDelivery@
    }
}

/// The whole stop-monitoring reply.
#[allow(non_snake_case)]
pub struct GetStopInfoResponse {
    pub Siri: Siri,
}

impl View for GetStopInfoResponse {
    type V = Seq<Seq<Visit>>;

    open spec fn view(&self) -> Seq<Seq<Visit>> {
        self.Siri@
    }
}

} // verus!
