use std::collections::HashMap;

use editoast::{
    check_tracks_from_path_items, collect_path_item_ids, extract_location_from_path_items,
    format_cache_key,
    path_input_hash, referenced_tracks, secondary_code_filter, track_offsets_from_ops, Action,
    Event, LoadingGaugeType, OperationalPointBatch, OperationalPointRecord, PathItemLocation,
    PathfindingError, PathfindingInput, PathfindingResult, Pipeline, Stage, TrackOffset,
};

fn offset(track: &str, offset: u64) -> TrackOffset {
    TrackOffset { track: track.to_string(), offset }
}

fn at(track: &str, o: u64) -> PathItemLocation {
    PathItemLocation::TrackOffset(offset(track, o))
}

fn by_id(id: &str) -> PathItemLocation {
    PathItemLocation::OperationalPointId { operational_point: id.to_string() }
}

fn by_trigram(trigram: &str, code: Option<&str>) -> PathItemLocation {
    PathItemLocation::OperationalPointDescription {
        trigram: trigram.to_string(),
        secondary_code: code.map(|c| c.to_string()),
    }
}

fn by_uic(uic: u32, code: Option<&str>) -> PathItemLocation {
    PathItemLocation::OperationalPointUic { uic, secondary_code: code.map(|c| c.to_string()) }
}

fn record(
    id: &str,
    parts: Vec<TrackOffset>,
    uic: Option<i64>,
    trigram: Option<&str>,
    code: Option<&str>,
) -> OperationalPointRecord {
    OperationalPointRecord {
        obj_id: id.to_string(),
        parts,
        uic,
        trigram: trigram.map(|t| t.to_string()),
        secondary_code: code.map(|c| c.to_string()),
    }
}

fn request(path_items: Vec<PathItemLocation>) -> PathfindingInput {
    PathfindingInput {
        rolling_stock_loading_gauge: LoadingGaugeType::G1,
        rolling_stock_is_thermal: true,
        rolling_stock_supported_electrification: vec!["25000V".to_string()],
        rolling_stock_supported_signaling_systems: vec!["BAL".to_string()],
        path_items,
    }
}

fn empty_batch() -> OperationalPointBatch {
    OperationalPointBatch { by_id: vec![], by_uic: vec![], by_trigram: vec![] }
}

/// An infrastructure store, a result cache and a path engine in memory,
/// with counters of the calls made to them.
struct World {
    infras: HashMap<i64, String>,
    ops: Vec<OperationalPointRecord>,
    tracks: Vec<String>,
    cache: HashMap<String, PathfindingResult>,
    engine_outcome: PathfindingResult,
    engine_calls: usize,
    store_calls: usize,
    cache_writes: usize,
}

impl World {
    fn new(ops: Vec<OperationalPointRecord>, tracks: &[&str]) -> World {
        World {
            infras: HashMap::from([(1, "7".to_string())]),
            ops,
            tracks: tracks.iter().map(|t| t.to_string()).collect(),
            cache: HashMap::new(),
            engine_outcome: PathfindingResult::Success {
                blocks: vec!["block.1".to_string()],
                routes: vec!["route.1".to_string()],
                track_section_ranges: vec![],
                length: 1200,
            },
            engine_calls: 0,
            store_calls: 0,
            cache_writes: 0,
        }
    }

    fn run(&mut self, infra_id: i64, input: &PathfindingInput) -> Result<PathfindingResult, PathfindingError> {
        let version = self.infras.get(&infra_id).cloned();
        let (mut pipeline, mut action) = Pipeline::start("1.0.0", infra_id, &version, input)?;
        loop {
            let event = match action {
                Action::ReadCache { key } => Event::CacheRead { entry: self.cache.get(&key).cloned() },
                Action::FetchOperationalPoints { trigrams, uics, ids } => {
                    self.store_calls += 1;
                    let pick = |f: &dyn Fn(&OperationalPointRecord) -> bool| -> Vec<OperationalPointRecord> {
                        self.ops.iter().filter(|op| f(op)).cloned().collect()
                    };
                    let batch = OperationalPointBatch {
                        by_id: pick(&|op| ids.contains(&op.obj_id)),
                        by_uic: pick(&|op| op.uic.map_or(false, |u| uics.contains(&u))),
                        by_trigram: pick(&|op| {
                            op.trigram.as_ref().map_or(false, |t| trigrams.contains(t))
                        }),
                    };
                    Event::OperationalPointsFetched { batch }
                }
                Action::FetchTracks { tracks } => {
                    self.store_calls += 1;
                    let found = tracks.into_iter().filter(|t| self.tracks.contains(t)).collect();
                    Event::TracksFetched { found }
                }
                Action::InvokeEngine { .. } => {
                    self.engine_calls += 1;
                    Event::EngineReplied { outcome: self.engine_outcome.clone() }
                }
                Action::StoreAndReply { key, outcome } => {
                    self.cache_writes += 1;
                    self.cache.insert(key, outcome.clone());
                    return Ok(outcome);
                }
                Action::Reply { outcome } => return Ok(outcome),
            };
            assert!(pipeline.accepts(&event));
            let (next, next_action) = pipeline.step(event);
            pipeline = next;
            action = next_action;
        }
    }
}

#[test]
fn scenario_unknown_operational_point_is_reported_and_not_cached() {
    let mut world = World::new(vec![], &["A"]);
    let input = request(vec![at("A", 0), by_id("OP1")]);
    let outcome = world.run(1, &input).unwrap();
    assert_eq!(outcome, PathfindingResult::InvalidPathItem { index: 1, path_item: by_id("OP1") });
    assert_eq!(world.cache_writes, 0);
    assert!(world.cache.is_empty());
    assert_eq!(world.engine_calls, 0);
}

#[test]
fn scenario_repeated_request_is_served_from_cache() {
    let mut world = World::new(vec![], &["A", "B"]);
    let input = request(vec![at("A", 0), at("B", 10)]);
    let first = world.run(1, &input).unwrap();
    assert_eq!(world.engine_calls, 1);
    assert_eq!(world.cache_writes, 1);
    let second = world.run(1, &input).unwrap();
    assert_eq!(first, second);
    assert_eq!(world.engine_calls, 1);
    assert_eq!(world.cache_writes, 1);
}

#[test]
fn scenario_missing_track_fails_before_engine() {
    let ops = vec![record("OP1", vec![offset("B", 5), offset("GHOST", 3)], Some(87), None, None)];
    let mut world = World::new(ops, &["A", "B"]);
    let input = request(vec![at("A", 0), by_id("OP1")]);
    let outcome = world.run(1, &input).unwrap();
    assert_eq!(outcome, PathfindingResult::NotFoundInTracks);
    assert_eq!(world.engine_calls, 0);
    assert_eq!(world.cache_writes, 0);
}

#[test]
fn cache_hit_touches_neither_store_nor_engine() {
    let mut world = World::new(vec![], &["A"]);
    let input = request(vec![at("A", 0)]);
    let key = path_input_hash("1.0.0", 1, &"7".to_string(), &input);
    world.cache.insert(key, PathfindingResult::NotFoundInRoutes { track_section_ranges: vec![], length: 3 });
    let outcome = world.run(1, &input).unwrap();
    assert_eq!(outcome, PathfindingResult::NotFoundInRoutes { track_section_ranges: vec![], length: 3 });
    assert_eq!(world.store_calls, 0);
    assert_eq!(world.engine_calls, 0);
}

#[test]
fn unknown_infra_is_an_error() {
    let mut world = World::new(vec![], &["A"]);
    let input = request(vec![at("A", 0)]);
    assert_eq!(world.run(9, &input), Err(PathfindingError::InfraNotFound { infra_id: 9 }));
}

#[test]
fn engine_failures_are_cached() {
    let mut world = World::new(vec![], &["A"]);
    world.engine_outcome = PathfindingResult::IncompatibleLoadingGauge {
        blocks: vec![],
        routes: vec![],
        track_section_ranges: vec![],
        length: 10,
        incompatible_ranges: vec![(0, 10)],
    };
    let input = request(vec![at("A", 0)]);
    let outcome = world.run(1, &input).unwrap();
    assert_eq!(outcome, world.engine_outcome);
    assert_eq!(world.cache_writes, 1);
}

#[test]
fn validation_outcomes_from_engine_are_not_cached() {
    let mut pipeline = Pipeline::start("1", 1, &Some("7".to_string()), &request(vec![at("A", 0)]))
        .unwrap()
        .0;
    for event in [
        Event::CacheRead { entry: None },
        Event::OperationalPointsFetched { batch: empty_batch() },
        Event::TracksFetched { found: vec!["A".to_string()] },
    ] {
        pipeline = pipeline.step(event).0;
    }
    assert!(matches!(pipeline.stage, Stage::AwaitingEngine));
    let (done, action) = pipeline.step(Event::EngineReplied { outcome: PathfindingResult::NotFoundInTracks });
    assert!(matches!(done.stage, Stage::Done));
    assert!(matches!(action, Action::Reply { outcome: PathfindingResult::NotFoundInTracks }));
}

#[test]
fn pipeline_refuses_out_of_order_events() {
    let (pipeline, action) =
        Pipeline::start("1", 1, &Some("7".to_string()), &request(vec![at("A", 0)])).unwrap();
    assert!(matches!(action, Action::ReadCache { .. }));
    assert!(!pipeline.accepts(&Event::TracksFetched { found: vec![] }));
    assert!(pipeline.accepts(&Event::CacheRead { entry: None }));
}

#[test]
fn cache_key_is_deterministic_and_order_sensitive() {
    let version = "12".to_string();
    let input = request(vec![at("A", 0), by_trigram("ABC", None)]);
    let swapped = request(vec![by_trigram("ABC", None), at("A", 0)]);
    let k1 = path_input_hash("2.1", 42, &version, &input);
    let k2 = path_input_hash("2.1", 42, &version, &input.clone());
    assert_eq!(k1, k2);
    assert_ne!(k1, path_input_hash("2.1", 42, &version, &swapped));
    assert_ne!(k1, path_input_hash("2.2", 42, &version, &input));
    assert_ne!(k1, path_input_hash("2.1", 42, &"13".to_string(), &input));
}

#[test]
fn cache_key_layout() {
    let input = request(vec![at("A", 0)]);
    let key = path_input_hash("2.1", 42, &"12".to_string(), &input);
    assert!(key.starts_with("2.1.42.12."));
    let fingerprint = &key["2.1.42.12.".len()..];
    assert!(!fingerprint.is_empty());
    assert!(fingerprint.chars().all(|c| c.is_ascii_digit()));
    let negative = path_input_hash("v", -5, &"0".to_string(), &input);
    assert!(negative.starts_with("v.-5.0."));
    assert!(negative.ends_with(fingerprint));
}

#[test]
fn uic_codes_are_collected_once_each() {
    let items = vec![
        by_uic(1, None),
        by_uic(2, Some("BV")),
        by_uic(3, None),
        by_uic(2, None),
        at("A", 0),
        by_trigram("ABC", None),
        by_trigram("ABC", Some("P1")),
        by_id("OP1"),
    ];
    let (trigrams, uics, ids) = collect_path_item_ids(&items);
    assert_eq!(uics, vec![1, 2, 3]);
    assert_eq!(trigrams, vec!["ABC".to_string()]);
    assert_eq!(ids, vec!["OP1".to_string()]);
}

#[test]
fn nothing_to_collect_from_track_positions() {
    let (trigrams, uics, ids) = collect_path_item_ids(&[at("A", 0), at("B", 1)]);
    assert!(trigrams.is_empty() && uics.is_empty() && ids.is_empty());
}

#[test]
fn three_uic_codes_take_one_batched_lookup() {
    let ops = vec![
        record("OP1", vec![offset("A", 1)], Some(11), None, None),
        record("OP2", vec![offset("B", 2)], Some(22), None, None),
        record("OP3", vec![offset("C", 3)], Some(33), None, None),
    ];
    let mut world = World::new(ops, &["A", "B", "C"]);
    let input = request(vec![by_uic(11, None), by_uic(22, None), by_uic(33, None)]);
    let outcome = world.run(1, &input).unwrap();
    assert_eq!(outcome, world.engine_outcome);
    // one lookup for the operational points, one for the tracks
    assert_eq!(world.store_calls, 2);
}

fn two_stations() -> OperationalPointBatch {
    OperationalPointBatch {
        by_id: vec![],
        by_uic: vec![],
        by_trigram: vec![
            record("OP1", vec![offset("A", 1), offset("B", 2)], None, Some("ABC"), Some("BV")),
            record("OP2", vec![offset("C", 3)], None, Some("ABC"), Some("P2")),
        ],
    }
}

#[test]
fn qualifier_keeps_only_matching_operational_point() {
    let batch = two_stations();
    let r = extract_location_from_path_items(&[by_trigram("ABC", Some("BV"))], &batch).unwrap();
    assert_eq!(r, vec![vec![offset("A", 1), offset("B", 2)]]);
}

#[test]
fn no_qualifier_keeps_every_operational_point() {
    let batch = two_stations();
    let r = extract_location_from_path_items(&[by_trigram("ABC", None)], &batch).unwrap();
    assert_eq!(r, vec![vec![offset("A", 1), offset("B", 2), offset("C", 3)]]);
}

#[test]
fn unmatched_qualifier_is_invalid() {
    let batch = two_stations();
    let item = by_trigram("ABC", Some("XX"));
    let r = extract_location_from_path_items(&[at("Z", 0), item.clone()], &batch);
    assert_eq!(r, Err(PathfindingResult::InvalidPathItem { index: 1, path_item: item }));
}

#[test]
fn resolution_keeps_waypoint_order() {
    let batch = OperationalPointBatch {
        by_id: vec![record("OP9", vec![offset("D", 4)], None, None, None)],
        by_uic: vec![record("OP7", vec![offset("E", 5), offset("F", 6)], Some(87), None, Some("BV"))],
        by_trigram: two_stations().by_trigram,
    };
    let items = vec![at("A", 0), by_id("OP9"), by_uic(87, Some("BV")), by_trigram("ABC", Some("P2"))];
    let r = extract_location_from_path_items(&items, &batch).unwrap();
    assert_eq!(
        r,
        vec![
            vec![offset("A", 0)],
            vec![offset("D", 4)],
            vec![offset("E", 5), offset("F", 6)],
            vec![offset("C", 3)],
        ]
    );
    let reversed: Vec<PathItemLocation> = items.iter().rev().cloned().collect();
    let mut expected = r.clone();
    expected.reverse();
    assert_eq!(extract_location_from_path_items(&reversed, &batch).unwrap(), expected);
}

#[test]
fn first_failing_waypoint_is_reported() {
    let batch = empty_batch();
    let items = vec![at("A", 0), by_uic(5, None), by_id("OP1")];
    assert_eq!(
        extract_location_from_path_items(&items, &batch),
        Err(PathfindingResult::InvalidPathItem { index: 1, path_item: by_uic(5, None) })
    );
    let swapped = vec![at("A", 0), by_id("OP1"), by_uic(5, None)];
    assert_eq!(
        extract_location_from_path_items(&swapped, &batch),
        Err(PathfindingResult::InvalidPathItem { index: 1, path_item: by_id("OP1") })
    );
}

#[test]
fn operational_point_without_attachment_is_invalid() {
    let batch = OperationalPointBatch {
        by_id: vec![record("OP1", vec![], None, None, None)],
        by_uic: vec![],
        by_trigram: vec![],
    };
    assert_eq!(
        extract_location_from_path_items(&[by_id("OP1")], &batch),
        Err(PathfindingResult::InvalidPathItem { index: 0, path_item: by_id("OP1") })
    );
}

#[test]
fn empty_waypoint_list_resolves_to_nothing() {
    assert_eq!(extract_location_from_path_items(&[], &empty_batch()), Ok(vec![]));
}

#[test]
fn secondary_code_filter_cases() {
    let ops = two_stations().by_trigram;
    assert_eq!(secondary_code_filter(&None, Some(ops.clone())), Some(ops.clone()));
    assert_eq!(secondary_code_filter(&Some("P2".to_string()), None), None);
    assert_eq!(
        secondary_code_filter(&Some("P2".to_string()), Some(ops.clone())),
        Some(vec![ops[1].clone()])
    );
}

#[test]
fn attachments_are_flattened_in_order() {
    let ops = two_stations().by_trigram;
    assert_eq!(track_offsets_from_ops(&ops), vec![offset("A", 1), offset("B", 2), offset("C", 3)]);
    assert_eq!(track_offsets_from_ops(&[]), vec![]);
}

#[test]
fn referenced_tracks_are_distinct() {
    let cands = vec![vec![offset("A", 0), offset("B", 1)], vec![offset("A", 5)], vec![offset("C", 2)]];
    assert_eq!(referenced_tracks(&cands), vec!["A".to_string(), "B".to_string(), "C".to_string()]);
}

#[test]
fn tracks_check() {
    let cands = vec![vec![offset("A", 0)], vec![offset("B", 1), offset("C", 2)]];
    let all = vec!["A".to_string(), "B".to_string(), "C".to_string()];
    assert_eq!(check_tracks_from_path_items(&cands, &all), Ok(()));
    let partial = vec!["A".to_string(), "B".to_string()];
    assert_eq!(
        check_tracks_from_path_items(&cands, &partial),
        Err(PathfindingResult::NotFoundInTracks)
    );
    assert_eq!(check_tracks_from_path_items(&vec![], &vec![]), Ok(()));
}

#[test]
fn cacheable_outcomes() {
    assert!(!PathfindingResult::NotFoundInTracks.cacheable());
    assert!(!PathfindingResult::InvalidPathItem { index: 0, path_item: by_id("X") }.cacheable());
    assert!(PathfindingResult::NotFoundInBlocks { track_section_ranges: vec![], length: 0 }.cacheable());
    assert!(PathfindingResult::IncompatibleElectrification {
        blocks: vec![],
        routes: vec![],
        track_section_ranges: vec![],
        length: 0,
        incompatible_ranges: vec![],
    }
    .cacheable());
}

#[test]
fn cache_key_from_fingerprint() {
    assert_eq!(format_cache_key("2.1", 42, &"12".to_string(), 907), "2.1.42.12.907");
    assert_eq!(format_cache_key("v", -5, &"0".to_string(), 0), "v.-5.0.0");
    assert_eq!(
        format_cache_key("", i64::MIN, &"x".to_string(), u64::MAX),
        ".-9223372036854775808.x.18446744073709551615"
    );
}
