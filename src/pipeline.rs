use vstd::prelude::*;

use crate::cache_key::{cache_key, path_input_hash, request_fingerprint};
use crate::location::{
    collect_path_item_ids, extract_location_from_path_items, first_unresolved, item_candidates,
    lists_names, lists_uics, resolves, NameKind, OperationalPointBatch, PathItemLocation,
    TrackOffset,
};
use crate::outcome::{is_cacheable, PathfindingError, PathfindingInput, PathfindingResult};
use crate::tracks::{
    check_tracks_from_path_items, distinct, has_track, mentions_track, referenced_tracks,
};

verus! {

/// Where a request stands in its resolution.
pub enum Stage {
    /// The cache has been asked for the request's key.
    AwaitingCache,
    /// The operational points that the waypoints name have been asked for.
    AwaitingOperationalPoints,
    /// The tracks of these candidate positions have been asked for.
    AwaitingTracks { track_offsets: Vec<Vec<TrackOffset>> },
    /// The path engine has been asked for a path.
    AwaitingEngine,
    /// The outcome has been handed out.
    Done,
}

/// What the outside world answered to the last action.
pub enum Event {
    /// The cache entry under the key, if any.
    CacheRead { entry: Option<PathfindingResult> },
    /// The operational points fetched for the collected identifiers.
    OperationalPointsFetched { batch: OperationalPointBatch },
    /// The ids, among those asked for, of the tracks that the
    /// infrastructure holds.
    TracksFetched { found: Vec<String> },
    /// The path engine's outcome.
    EngineReplied { outcome: PathfindingResult },
}

/// What the outside world is asked to do next.
pub enum Action {
    /// Read the cache entry under `key`.
    ReadCache { key: String },
    /// Fetch, in one batch each, the operational points with these ids,
    /// UIC codes and trigrams.
    FetchOperationalPoints { trigrams: Vec<String>, uics: Vec<i64>, ids: Vec<String> },
    /// Fetch the tracks with these ids.
    FetchTracks { tracks: Vec<String> },
    /// Ask the path engine for a path through these candidate positions.
    InvokeEngine { track_offsets: Vec<Vec<TrackOffset>> },
    /// Write `outcome` to the cache under `key`, then hand it out, whether
    /// or not the write succeeded.
    StoreAndReply { key: String, outcome: PathfindingResult },
    /// Hand out `outcome`, writing nothing to the cache.
    Reply { outcome: PathfindingResult },
}

/// One pathfinding request on its way from cache key to outcome.
pub struct Pipeline {
    pub key: String,
    pub path_items: Vec<PathItemLocation>,
    pub stage: Stage,
}

/// `event` answers the action that led to `stage`.
pub open spec fn expects(stage: Stage, event: Event) -> bool {
    match (stage, event) {
        (Stage::AwaitingCache, Event::CacheRead { .. }) => true,
        (Stage::AwaitingOperationalPoints, Event::OperationalPointsFetched { .. }) => true,
        (Stage::AwaitingTracks { .. }, Event::TracksFetched { .. }) => true,
        (Stage::AwaitingEngine, Event::EngineReplied { .. }) => true,
        _ => false,
    }
}

/// The action ends the request.
pub open spec fn is_final(action: Action) -> bool {
    action is StoreAndReply || action is Reply
}

impl Pipeline {
    /// Derive the cache key of a request and ask the cache for it.
    /// `infra_version` is the version of the infrastructure `infra_id`, or
    /// `None` when no such infrastructure exists.
    pub fn start(
        app_version: &str,
        infra_id: i64,
        infra_version: &Option<String>,
        path_input: &PathfindingInput,
    ) -> (r: Result<(Pipeline, Action), PathfindingError>)
        ensures
            infra_version is None <==> r is Err,
            r is Err ==> r == Err::<(Pipeline, Action), PathfindingError>(
                PathfindingError::InfraNotFound { infra_id },
            ),
            r matches Ok((p, a)) ==> {
                &&& p.key@ == cache_key(
                    app_version@,
                    infra_id as int,
                    infra_version->0@,
                    request_fingerprint(path_input@),
                )
                &&& p.path_items@ == path_input.path_items@
                &&& p.stage is AwaitingCache
                &&& a == (Action::ReadCache { key: p.key })
            },
    {
        match infra_version {
            None => Err(PathfindingError::InfraNotFound { infra_id }),
            Some(version) => {
                let key = path_input_hash(app_version, infra_id, version, path_input);
                let mut path_items: Vec<PathItemLocation> = Vec::new();
                let mut i: usize = 0;
                while i < path_input.path_items.len()
                    invariant
                        i <= path_input.path_items@.len(),
                        path_items@ == path_input.path_items@.subrange(0, i as int),
                    decreases path_input.path_items@.len() - i,
                {
                    path_items.push(path_input.path_items[i].duplicate());
                    i = i + 1;
                    assert(path_items@ =~= path_input.path_items@.subrange(0, i as int));
                }
                assert(path_items@ =~= path_input.path_items@);
                let action = Action::ReadCache { key: key.clone() };
                Ok((Pipeline { key, path_items, stage: Stage::AwaitingCache }, action))
            },
        }
    }

    /// Whether `event` answers the action this pipeline is waiting on.
    pub fn accepts(&self, event: &Event) -> (r: bool)
        ensures
            r == expects(self.stage, *event),
    {
        match (&self.stage, event) {
            (Stage::AwaitingCache, Event::CacheRead { .. }) => true,
            (Stage::AwaitingOperationalPoints, Event::OperationalPointsFetched { .. }) => true,
            (Stage::AwaitingTracks { .. }, Event::TracksFetched { .. }) => true,
            (Stage::AwaitingEngine, Event::EngineReplied { .. }) => true,
            _ => false,
        }
    }

    /// Take in the answer to the last action and decide the next one.
    ///
    /// A cache hit is handed out at once. Waypoints that do not resolve,
    /// and candidates on tracks the infrastructure lacks, end the request
    /// before the engine is asked; these outcomes are never cached. The
    /// engine's own outcomes are cached.
    pub fn step(self, event: Event) -> (r: (Pipeline, Action))
        requires
            expects(self.stage, event),
        ensures
            r.0.key == self.key,
            r.0.path_items == self.path_items,
            r.0.stage is Done <==> is_final(r.1),
            r.1 matches Action::StoreAndReply { key, outcome } ==> key == self.key
                && is_cacheable(outcome) && self.stage is AwaitingEngine,
            match (self.stage, event) {
                (Stage::AwaitingCache, Event::CacheRead { entry: Some(o) }) => r.1 == (
                Action::Reply { outcome: o }),
                (Stage::AwaitingCache, Event::CacheRead { entry: None }) => {
                    &&& r.0.stage is AwaitingOperationalPoints
                    &&& r.1 matches Action::FetchOperationalPoints { trigrams, uics, ids } && {
                        &&& lists_names(
                            trigrams@,
                            self.path_items@,
                            self.path_items@.len() as int,
                            NameKind::Trigram,
                        )
                        &&& lists_uics(uics@, self.path_items@, self.path_items@.len() as int)
                        &&& lists_names(
                            ids@,
                            self.path_items@,
                            self.path_items@.len() as int,
                            NameKind::ObjectId,
                        )
                    }
                },
                (Stage::AwaitingOperationalPoints, Event::OperationalPointsFetched { batch }) => {
                    if forall|i: int|
                        0 <= i < self.path_items@.len() ==> resolves(
                            #[trigger] self.path_items@[i],
                            batch,
                        ) {
                        r.0.stage matches Stage::AwaitingTracks { track_offsets } && {
                            &&& track_offsets@.len() == self.path_items@.len()
                            &&& forall|i: int|
                                0 <= i < self.path_items@.len() ==> (
                                #[trigger] track_offsets@[i])@ == item_candidates(
                                    self.path_items@[i],
                                    batch,
                                )
                            &&& r.1 matches Action::FetchTracks { tracks } && distinct(tracks@)
                                && forall|t: Seq<char>|
                                has_track(tracks@, t) <==> mentions_track(track_offsets@, t)
                        }
                    } else {
                        exists|k: int|
                            first_unresolved(self.path_items@, batch, k) && r.1 == (
                            Action::Reply {
                                outcome: PathfindingResult::InvalidPathItem {
                                    index: k as usize,
                                    path_item: self.path_items@[k],
                                },
                            })
                    }
                },
                (Stage::AwaitingTracks { track_offsets }, Event::TracksFetched { found }) => {
                    if forall|a: int, b: int|
                        #![trigger track_offsets@[a]@[b]]
                        0 <= a < track_offsets@.len() && 0 <= b < track_offsets@[a]@.len()
                            ==> has_track(found@, track_offsets@[a]@[b].track@) {
                        r.0.stage is AwaitingEngine && r.1 == (Action::InvokeEngine {
                            track_offsets,
                        })
                    } else {
                        r.1 == (Action::Reply { outcome: PathfindingResult::NotFoundInTracks })
                    }
                },
                (Stage::AwaitingEngine, Event::EngineReplied { outcome }) => {
                    if is_cacheable(outcome) {
                        r.1 == (Action::StoreAndReply { key: self.key, outcome })
                    } else {
                        r.1 == (Action::Reply { outcome })
                    }
                },
                _ => false,
            },
    {
        let Pipeline { key, path_items, stage } = self;
        match (stage, event) {
            (Stage::AwaitingCache, Event::CacheRead { entry }) => match entry {
                Some(outcome) => (
                    Pipeline { key, path_items, stage: Stage::Done },
                    Action::Reply { outcome },
                ),
                None => {
                    let (trigrams, uics, ids) = collect_path_item_ids(path_items.as_slice());
                    (
                        Pipeline { key, path_items, stage: Stage::AwaitingOperationalPoints },
                        Action::FetchOperationalPoints { trigrams, uics, ids },
                    )
                },
            },
            (Stage::AwaitingOperationalPoints, Event::OperationalPointsFetched { batch }) => {
                match extract_location_from_path_items(path_items.as_slice(), &batch) {
                    Err(outcome) => (
                        Pipeline { key, path_items, stage: Stage::Done },
                        Action::Reply { outcome },
                    ),
                    Ok(track_offsets) => {
                        let tracks = referenced_tracks(&track_offsets);
                        (
                            Pipeline {
                                key,
                                path_items,
                                stage: Stage::AwaitingTracks { track_offsets },
                            },
                            Action::FetchTracks { tracks },
                        )
                    },
                }
            },
            (Stage::AwaitingTracks { track_offsets }, Event::TracksFetched { found }) => {
                match check_tracks_from_path_items(&track_offsets, &found) {
                    Err(outcome) => (
                        Pipeline { key, path_items, stage: Stage::Done },
                        Action::Reply { outcome },
                    ),
                    Ok(()) => (
                        Pipeline { key, path_items, stage: Stage::AwaitingEngine },
                        Action::InvokeEngine { track_offsets },
                    ),
                }
            },
            (Stage::AwaitingEngine, Event::EngineReplied { outcome }) => {
                if outcome.cacheable() {
                    let stored_key = key.clone();
                    (
                        Pipeline { key, path_items, stage: Stage::Done },
                        Action::StoreAndReply { key: stored_key, outcome },
                    )
                } else {
                    (Pipeline { key, path_items, stage: Stage::Done }, Action::Reply { outcome })
                }
            },
            (stage, _) => {
                assert(false);
                (Pipeline { key, path_items, stage }, Action::Reply {
                    outcome: PathfindingResult::NotFoundInTracks,
                })
            },
        }
    }
}

} // verus!
