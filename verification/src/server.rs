//! The exporter's serving loop: its settings and the maps it refreshes.
use crate::mappers::Mapper;
use vstd::prelude::*;

verus! {

/// Serves the metrics on `port` and refreshes every map each `refresh_interval` seconds.
pub struct Server {
    pub port: u16,
    pub refresh_interval: u64,
    pub mapper: Mapper,
}

impl Server {
    pub fn new(port: u16, refresh_interval: u64, mapper: Mapper) -> (r: Self)
        ensures
            r.port == port,
            r.refresh_interval == refresh_interval,
            r.mapper == mapper,
    {
        Self { port, refresh_interval, mapper }
    }
}

/// The address the exporter listens on: every interface, at `port`.
pub fn listen_address(port: u16) -> (a: String)
    ensures
        a@ == "0.0.0.0:"@ + crate::text::nat_to_decimal(port as nat),
{
    crate::text::concat("0.0.0.0:", crate::text::u64_to_decimal(port as u64).as_str())
}

}
