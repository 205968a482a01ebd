use vstd::prelude::*;

use crate::location::PathItemLocation;
use crate::track_endpoint::Direction;

verus! {

/// A stretch of a track section that a computed path runs along.
#[derive(Clone, Debug, PartialEq, Eq, Hash)]
pub struct TrackRange {
    pub track_section: String,
    pub begin: u64,
    pub end: u64,
    pub direction: Direction,
}

/// The single, tagged answer to a pathfinding request.
#[derive(Clone, Debug, PartialEq, Eq, Hash)]
pub enum PathfindingResult {
    Success {
        blocks: Vec<String>,
        routes: Vec<String>,
        track_section_ranges: Vec<TrackRange>,
        length: u64,
    },
    NotFoundInBlocks { track_section_ranges: Vec<TrackRange>, length: u64 },
    NotFoundInRoutes { track_section_ranges: Vec<TrackRange>, length: u64 },
    NotFoundInTracks,
    IncompatibleElectrification {
        blocks: Vec<String>,
        routes: Vec<String>,
        track_section_ranges: Vec<TrackRange>,
        length: u64,
        incompatible_ranges: Vec<(u64, u64)>,
    },
    IncompatibleLoadingGauge {
        blocks: Vec<String>,
        routes: Vec<String>,
        track_section_ranges: Vec<TrackRange>,
        length: u64,
        incompatible_ranges: Vec<(u64, u64)>,
    },
    IncompatibleSignalingSystem {
        blocks: Vec<String>,
        routes: Vec<String>,
        track_section_ranges: Vec<TrackRange>,
        length: u64,
        incompatible_ranges: Vec<(u64, u64)>,
    },
    InvalidPathItem { index: usize, path_item: PathItemLocation },
}

/// Outcomes that only the path engine produces: the expensive, stable
/// answers, which are worth keeping in the result cache. Validation
/// failures are cheap to recompute and never cached.
pub open spec fn is_cacheable(r: PathfindingResult) -> bool {
    !(r is InvalidPathItem || r is NotFoundInTracks)
}

impl PathfindingResult {
    /// Whether this outcome may be written to the result cache.
    pub fn cacheable(&self) -> (r: bool)
        ensures
            r == is_cacheable(*self),
    {
        match self {
            PathfindingResult::InvalidPathItem { .. } => false,
            PathfindingResult::NotFoundInTracks => false,
            _ => true,
        }
    }
}

/// Loading gauge categories of rolling stock.
#[derive(Clone, Copy, Debug, PartialEq, Eq, Structural, Hash)]
pub enum LoadingGaugeType {
    G1,
    G2,
    GA,
    GB,
    GB1,
    GC,
    FR3_3,
    FR3_3_GB_G2,
    GLOTT,
}

/// A pathfinding request: some rolling stock information and the ordered
/// list of waypoints to go through.
#[derive(Clone, Debug, PartialEq, Eq, Hash)]
pub struct PathfindingInput {
    /// The loading gauge of the rolling stock
    pub rolling_stock_loading_gauge: LoadingGaugeType,
    /// Can the rolling stock run on non-electrified tracks
    pub rolling_stock_is_thermal: bool,
    /// Supported electrification modes; empty if none is supported
    pub rolling_stock_supported_electrification: Vec<String>,
    /// Supported signaling systems
    pub rolling_stock_supported_signaling_systems: Vec<String>,
    /// Waypoints given to the pathfinding, in order
    pub path_items: Vec<PathItemLocation>,
}

/// Failures that prevent a request from being serviced at all.
#[derive(Clone, Copy, Debug, PartialEq, Eq, Structural)]
pub enum PathfindingError {
    InfraNotFound { infra_id: i64 },
}

} // verus!
