//! Pathfinding request resolution and result-cache orchestration for a
//! versioned railway infrastructure.

mod authz;
mod cache_key;
mod infra;
mod location;
mod outcome;
mod pipeline;
mod study;
mod track_endpoint;
mod tracks;

pub use authz::UserInfo;
pub use cache_key::{
    format_cache_key, lemma_cache_key_deterministic, lemma_cache_key_separates_fingerprints,
    path_input_hash,
};
pub use infra::{InfraChangeset, RAILJSON_VERSION};
pub use location::{
    collect_path_item_ids, extract_location_from_path_items, item_track_offsets, keyed_records,
    lemma_qualifier_filtering, lemma_resolution_follows_order, secondary_code_filter,
    track_offsets_from_ops, OperationalPointBatch, OperationalPointRecord, PathItemLocation,
    TrackOffset,
};
pub use outcome::{
    LoadingGaugeType, PathfindingError, PathfindingInput, PathfindingResult, TrackRange,
};
pub use pipeline::{Action, Event, Pipeline, Stage};
pub use study::StudyError;
pub use track_endpoint::{Direction, Endpoint, TrackEndpoint};
pub use tracks::{check_tracks_from_path_items, referenced_tracks};
