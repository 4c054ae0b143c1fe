//! Gauges on the state of OpenStack services, derived from rows of their
//! databases: one collector for each service, which turns the rows of a
//! scrape into the series of its metrics.

pub mod gauge;
pub mod neutron;
pub mod nova;
pub mod nova_api;
pub mod octavia;
pub mod scrape;
pub mod series;
pub mod text;
pub mod time;
