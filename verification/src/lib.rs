//! Aggregation of real-time public-transit information.
//!
//! The library decides what to ask two upstream services, a transit-tracking
//! service and a places service, and what their replies amount to: arrival
//! times at stops ordered by time, the stops along a route grouped by
//! direction, the routes and stops near a location, and routes found by name.
//! It performs no input or output itself. A caller sends the requests whose
//! addresses the library builds and hands back what came as plain values
//! ([`upstream::Fetched`], [`upstream::Checked`]).
//!
//! - [`model`] holds the mathematical models that the contracts speak of.
//! - [`transit_service`] and [`maps_service`] are the two services;
//!   [`lookup`] is the step-by-step search around a location.
//! - [`arrivals`], [`grouping`], [`location`], [`search`] and [`sorting`] hold
//!   the rules and the laws proved of them.
//! - [`routes`], [`auth`] and [`app_error`] say what the HTTP boundary answers.
//! - [`clock`], [`percent`] and [`text`] hold the calls into `chrono`,
//!   `urlencoding` and the standard library whose contracts are trusted.

pub mod app;
pub mod app_error;
pub mod arrivals;
pub mod auth;
pub mod clock;
pub mod errors;
pub mod grouping;
pub mod json;
pub mod location;
pub mod lookup;
pub mod maps_service;
pub mod model;
pub mod percent;
pub mod records;
pub mod routes;
pub mod search;
pub mod sorting;
pub mod text;
pub mod transit_service;
pub mod types;
pub mod upstream;
