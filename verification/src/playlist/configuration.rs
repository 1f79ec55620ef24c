//! Runtime settings of the playlist-aggregation service.

use vstd::prelude::*;

verus! {

/// Settings the aggregation service starts with: the port to listen on, the
/// base address of the video-lookup service, and the endpoint its trace
/// exporter would report to.
#[derive(Debug, PartialEq)]
pub struct Settings {
    pub application_port: u16,
    pub video_service: String,
    pub jaeger_agent_endpoint: String,
}

impl Clone for Settings {
    fn clone(&self) -> (r: Self)
        ensures
            r == *self,
    {
        Settings {
            application_port: self.application_port,
            video_service: self.video_service.clone(),
            jaeger_agent_endpoint: self.jaeger_agent_endpoint.clone(),
        }
    }
}

/// Adopts the settings that were loaded at startup. Loading happens outside
/// this crate; the service refuses to start without settings, so a caller
/// must hand some in.
pub fn init_configuration(loaded: Option<Settings>) -> (r: Settings)
    requires
        loaded is Some,
    ensures
        Some(r) == loaded,
{
    loaded.unwrap()
}

} // verus!
