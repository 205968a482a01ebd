use vstd::prelude::*;

verus! {

/// The way a train runs along a track section.
#[derive(Clone, Copy, Debug, PartialEq, Eq, Structural, Hash)]
pub enum Direction {
    StartToStop,
    StopToStart,
}

/// One of the two ends of a track section.
#[derive(Clone, Copy, Debug, PartialEq, Eq, Structural, Hash)]
pub enum Endpoint {
    Begin,
    End,
}

/// An end of a given track section.
#[derive(Clone, Debug, PartialEq, Eq, Hash)]
pub struct TrackEndpoint {
    pub endpoint: Endpoint,
    pub track: String,
}

/// The end reached by running along a track in the given direction.
pub open spec fn endpoint_reached(dir: Direction) -> Endpoint {
    match dir {
        Direction::StartToStop => Endpoint::End,
        Direction::StopToStart => Endpoint::Begin,
    }
}

impl TrackEndpoint {
    /// Create a new `TrackEndpoint` from a track id and an endpoint.
    pub fn new(track: &str, endpoint: Endpoint) -> (r: TrackEndpoint)
        ensures
            r.track@ == track@,
            r.endpoint == endpoint,
    {
        TrackEndpoint { track: track.to_owned(), endpoint }
    }

    /// Create the `TrackEndpoint` reached when running along `track` in
    /// direction `dir`.
    pub fn from_track_and_direction(track: &str, dir: Direction) -> (r: TrackEndpoint)
        ensures
            r.track@ == track@,
            r.endpoint == endpoint_reached(dir),
    {
        let endpoint = match dir {
            Direction::StartToStop => Endpoint::End,
            Direction::StopToStart => Endpoint::Begin,
        };
        TrackEndpoint { track: track.to_owned(), endpoint }
    }
}

} // verus!
