use vstd::prelude::*;

use crate::outcome::PathfindingResult;

verus! {

/// A position on a track section: the unit every waypoint resolves to.
#[derive(Clone, Debug, PartialEq, Eq, Hash)]
pub struct TrackOffset {
    pub track: String,
    pub offset: u64,
}

impl TrackOffset {
    /// A copy of this position.
    pub fn duplicate(&self) -> (r: TrackOffset)
        ensures
            r == *self,
    {
        TrackOffset { track: self.track.clone(), offset: self.offset }
    }
}

/// A waypoint, in one of the addressing schemes a caller may use.
#[derive(Clone, Debug, PartialEq, Eq, Hash)]
pub enum PathItemLocation {
    /// An exact position on a track section.
    TrackOffset(TrackOffset),
    /// An operational point given by its object id.
    OperationalPointId { operational_point: String },
    /// An operational point given by its trigram, and possibly its
    /// secondary code.
    OperationalPointDescription { trigram: String, secondary_code: Option<String> },
    /// An operational point given by its UIC code, and possibly its
    /// secondary code.
    OperationalPointUic { uic: u32, secondary_code: Option<String> },
}

pub(crate) fn copy_code(code: &Option<String>) -> (r: Option<String>)
    ensures
        r == *code,
{
    match code {
        Some(c) => Some(c.clone()),
        None => None,
    }
}

impl PathItemLocation {
    /// A copy of this waypoint.
    pub fn duplicate(&self) -> (r: PathItemLocation)
        ensures
            r == *self,
    {
        match self {
            PathItemLocation::TrackOffset(t) => PathItemLocation::TrackOffset(t.duplicate()),
            PathItemLocation::OperationalPointId { operational_point } => {
                PathItemLocation::OperationalPointId {
                    operational_point: operational_point.clone(),
                }
            },
            PathItemLocation::OperationalPointDescription { trigram, secondary_code } => {
                PathItemLocation::OperationalPointDescription {
                    trigram: trigram.clone(),
                    secondary_code: copy_code(secondary_code),
                }
            },
            PathItemLocation::OperationalPointUic { uic, secondary_code } => {
                PathItemLocation::OperationalPointUic {
                    uic: *uic,
                    secondary_code: copy_code(secondary_code),
                }
            },
        }
    }
}

/// An operational point as the infrastructure store hands it out.
#[derive(Clone, Debug, PartialEq, Eq)]
pub struct OperationalPointRecord {
    pub obj_id: String,
    /// Where the operational point touches tracks, one entry per track.
    pub parts: Vec<TrackOffset>,
    pub uic: Option<i64>,
    pub trigram: Option<String>,
    pub secondary_code: Option<String>,
}

pub struct OperationalPointView {
    pub obj_id: Seq<char>,
    pub parts: Seq<TrackOffset>,
    pub uic: Option<i64>,
    pub trigram: Option<Seq<char>>,
    pub secondary_code: Option<Seq<char>>,
}

pub open spec fn opt_view(s: Option<String>) -> Option<Seq<char>> {
    match s {
        Some(v) => Some(v@),
        None => None,
    }
}

impl View for OperationalPointRecord {
    type V = OperationalPointView;

    open spec fn view(&self) -> OperationalPointView {
        OperationalPointView {
            obj_id: self.obj_id@,
            parts: self.parts@,
            uic: self.uic,
            trigram: opt_view(self.trigram),
            secondary_code: opt_view(self.secondary_code),
        }
    }
}

pub open spec fn views(ops: Seq<OperationalPointRecord>) -> Seq<OperationalPointView> {
    ops.map_values(|r: OperationalPointRecord| r@)
}

/// The operational points fetched in one round trip for a list of
/// waypoints: by object id, by UIC code and by trigram.
pub struct OperationalPointBatch {
    pub by_id: Vec<OperationalPointRecord>,
    pub by_uic: Vec<OperationalPointRecord>,
    pub by_trigram: Vec<OperationalPointRecord>,
}

/// Whether an operational point carries the identifier that a waypoint
/// names (its object id, UIC code or trigram).
pub open spec fn keyed(item: PathItemLocation, op: OperationalPointView) -> bool {
    match item {
        PathItemLocation::TrackOffset(_) => false,
        PathItemLocation::OperationalPointId { operational_point } => op.obj_id
            == operational_point@,
        PathItemLocation::OperationalPointDescription { trigram, .. } => op.trigram == Some(
            trigram@,
        ),
        PathItemLocation::OperationalPointUic { uic, .. } => op.uic == Some(uic as i64),
    }
}

/// The operational points of `ops` that `item` names, in order.
pub open spec fn keyed_ops(item: PathItemLocation, ops: Seq<OperationalPointView>) -> Seq<
    OperationalPointView,
>
    decreases ops.len(),
{
    if ops.len() == 0 {
        ops
    } else {
        let rest = keyed_ops(item, ops.drop_last());
        if keyed(item, ops.last()) {
            rest.push(ops.last())
        } else {
            rest
        }
    }
}

/// The operational points of `ops` whose secondary code is `code`, in
/// order; all of them when no code is asked for.
pub open spec fn qualified(code: Option<Seq<char>>, ops: Seq<OperationalPointView>) -> Seq<
    OperationalPointView,
>
    decreases ops.len(),
{
    if ops.len() == 0 || code is None {
        ops
    } else {
        let rest = qualified(code, ops.drop_last());
        if ops.last().secondary_code == code {
            rest.push(ops.last())
        } else {
            rest
        }
    }
}

/// Every attachment point of the operational points `ops`, in order.
pub open spec fn attachments(ops: Seq<OperationalPointView>) -> Seq<TrackOffset>
    decreases ops.len(),
{
    if ops.len() == 0 {
        Seq::empty()
    } else {
        attachments(ops.drop_last()) + ops.last().parts
    }
}

/// The secondary code a waypoint asks for, if any.
pub open spec fn qualifier(item: PathItemLocation) -> Option<Seq<char>> {
    match item {
        PathItemLocation::OperationalPointDescription { secondary_code, .. } => opt_view(
            secondary_code,
        ),
        PathItemLocation::OperationalPointUic { secondary_code, .. } => opt_view(secondary_code),
        _ => None,
    }
}

/// The part of a batch that answers a waypoint of this kind.
pub open spec fn source(item: PathItemLocation, batch: OperationalPointBatch) -> Seq<
    OperationalPointView,
> {
    match item {
        PathItemLocation::OperationalPointUic { .. } => views(batch.by_uic@),
        PathItemLocation::OperationalPointDescription { .. } => views(batch.by_trigram@),
        _ => views(batch.by_id@),
    }
}

/// The candidate positions of one waypoint.
pub open spec fn item_candidates(item: PathItemLocation, batch: OperationalPointBatch) -> Seq<
    TrackOffset,
> {
    match item {
        PathItemLocation::TrackOffset(t) => seq![t],
        _ => attachments(qualified(qualifier(item), keyed_ops(item, source(item, batch)))),
    }
}

/// A waypoint resolves when it has at least one candidate position.
pub open spec fn resolves(item: PathItemLocation, batch: OperationalPointBatch) -> bool {
    item_candidates(item, batch).len() > 0
}

/// `k` is the first waypoint of `items` that does not resolve.
pub open spec fn first_unresolved(
    items: Seq<PathItemLocation>,
    batch: OperationalPointBatch,
    k: int,
) -> bool {
    &&& 0 <= k < items.len()
    &&& !resolves(items[k], batch)
    &&& forall|j: int| 0 <= j < k ==> resolves(#[trigger] items[j], batch)
}

impl OperationalPointRecord {
    /// A copy of this record.
    pub fn duplicate(&self) -> (r: OperationalPointRecord)
        ensures
            r@ == self@,
    {
        let mut parts: Vec<TrackOffset> = Vec::new();
        let mut i: usize = 0;
        while i < self.parts.len()
            invariant
                i <= self.parts@.len(),
                parts@ == self.parts@.subrange(0, i as int),
            decreases self.parts@.len() - i,
        {
            parts.push(self.parts[i].duplicate());
            i = i + 1;
            assert(parts@ =~= self.parts@.subrange(0, i as int));
        }
        assert(parts@ =~= self.parts@);
        OperationalPointRecord {
            obj_id: self.obj_id.clone(),
            parts,
            uic: self.uic,
            trigram: copy_code(&self.trigram),
            secondary_code: copy_code(&self.secondary_code),
        }
    }
}

proof fn lemma_views_push_prefix(ops: Seq<OperationalPointRecord>, i: int)
    requires
        0 <= i < ops.len(),
    ensures
        views(ops.subrange(0, i + 1)).drop_last() == views(ops.subrange(0, i)),
        views(ops.subrange(0, i + 1)).last() == ops[i]@,
        views(ops.subrange(0, i + 1)).len() == i + 1,
{
    assert(views(ops.subrange(0, i + 1)).drop_last() =~= views(ops.subrange(0, i)));
}

/// Whether `op` carries the identifier that `item` names.
fn is_keyed(item: &PathItemLocation, op: &OperationalPointRecord) -> (r: bool)
    ensures
        r == keyed(*item, op@),
{
    match item {
        PathItemLocation::TrackOffset(_) => false,
        PathItemLocation::OperationalPointId { operational_point } => op.obj_id
            == *operational_point,
        PathItemLocation::OperationalPointDescription { trigram, .. } => match &op.trigram {
            Some(t) => *t == *trigram,
            None => false,
        },
        PathItemLocation::OperationalPointUic { uic, .. } => match op.uic {
            Some(u) => u == *uic as i64,
            None => false,
        },
    }
}

/// The records of `ops` that `item` names, in order.
pub fn keyed_records(item: &PathItemLocation, ops: &[OperationalPointRecord]) -> (r: Vec<
    OperationalPointRecord,
>)
    ensures
        views(r@) == keyed_ops(*item, views(ops@)),
{
    let mut r: Vec<OperationalPointRecord> = Vec::new();
    let mut i: usize = 0;
    while i < ops.len()
        invariant
            i <= ops@.len(),
            views(r@) == keyed_ops(*item, views(ops@.subrange(0, i as int))),
        decreases ops@.len() - i,
    {
        proof {
            lemma_views_push_prefix(ops@, i as int);
        }
        if is_keyed(item, &ops[i]) {
            let ghost before = r@;
            r.push(ops[i].duplicate());
            assert(views(r@) =~= views(before).push(ops@[i as int]@));
        }
        i = i + 1;
    }
    assert(ops@.subrange(0, ops@.len() as int) =~= ops@);
    r
}

/// Keep, of the operational points found for a waypoint, those whose
/// secondary code is the one asked for; all of them when none is asked for.
pub fn secondary_code_filter(
    secondary_code: &Option<String>,
    ops: Option<Vec<OperationalPointRecord>>,
) -> (r: Option<Vec<OperationalPointRecord>>)
    ensures
        r is Some <==> ops is Some,
        ops is Some ==> views(r.unwrap()@) == qualified(
            opt_view(*secondary_code),
            views(ops.unwrap()@),
        ),
{
    match secondary_code {
        None => {
            proof {
                if ops is Some {
                    let s = views(ops.unwrap()@);
                    if s.len() > 0 {
                        assert(qualified(None, s) == s);
                    }
                }
            }
            ops
        },
        Some(code) => match ops {
            None => None,
            Some(v) => {
                let mut r: Vec<OperationalPointRecord> = Vec::new();
                let mut i: usize = 0;
                while i < v.len()
                    invariant
                        i <= v@.len(),
                        views(r@) == qualified(
                            Some(code@),
                            views(v@.subrange(0, i as int)),
                        ),
                    decreases v@.len() - i,
                {
                    proof {
                        lemma_views_push_prefix(v@, i as int);
                    }
                    let keep = match &v[i].secondary_code {
                        Some(c) => *c == *code,
                        None => false,
                    };
                    if keep {
                        let ghost before = r@;
                        r.push(v[i].duplicate());
                        assert(views(r@) =~= views(before).push(v@[i as int]@));
                    }
                    i = i + 1;
                }
                assert(v@.subrange(0, v@.len() as int) =~= v@);
                Some(r)
            },
        },
    }
}

/// Every attachment point of the given operational points, in order.
pub fn track_offsets_from_ops(ops: &[OperationalPointRecord]) -> (r: Vec<TrackOffset>)
    ensures
        r@ == attachments(views(ops@)),
{
    let mut r: Vec<TrackOffset> = Vec::new();
    let mut i: usize = 0;
    while i < ops.len()
        invariant
            i <= ops@.len(),
            r@ == attachments(views(ops@.subrange(0, i as int))),
        decreases ops@.len() - i,
    {
        proof {
            lemma_views_push_prefix(ops@, i as int);
        }
        let parts = &ops[i].parts;
        let ghost start = r@;
        let mut j: usize = 0;
        while j < parts.len()
            invariant
                j <= parts@.len(),
                parts@ == ops@[i as int].parts@,
                r@ == start + parts@.subrange(0, j as int),
            decreases parts@.len() - j,
        {
            r.push(parts[j].duplicate());
            j = j + 1;
            assert(r@ =~= start + parts@.subrange(0, j as int));
        }
        assert(parts@.subrange(0, parts@.len() as int) =~= parts@);
        i = i + 1;
    }
    assert(ops@.subrange(0, ops@.len() as int) =~= ops@);
    r
}

/// The candidate positions of one waypoint against a batch.
pub fn item_track_offsets(item: &PathItemLocation, batch: &OperationalPointBatch) -> (r: Vec<
    TrackOffset,
>)
    ensures
        r@ == item_candidates(*item, *batch),
{
    match item {
        PathItemLocation::TrackOffset(t) => {
            let r = vec![t.duplicate()];
            assert(r@ =~= seq![*t]);
            r
        },
        PathItemLocation::OperationalPointId { .. } => {
            let ops = keyed_records(item, batch.by_id.as_slice());
            proof {
                let s = views(ops@);
                if s.len() > 0 {
                    assert(qualified(None, s) == s);
                }
            }
            track_offsets_from_ops(ops.as_slice())
        },
        PathItemLocation::OperationalPointDescription { secondary_code, .. } => {
            let ops = keyed_records(item, batch.by_trigram.as_slice());
            let ops = secondary_code_filter(secondary_code, Some(ops));
            let ops = ops.unwrap();
            track_offsets_from_ops(ops.as_slice())
        },
        PathItemLocation::OperationalPointUic { secondary_code, .. } => {
            let ops = keyed_records(item, batch.by_uic.as_slice());
            let ops = secondary_code_filter(secondary_code, Some(ops));
            let ops = ops.unwrap();
            track_offsets_from_ops(ops.as_slice())
        },
    }
}

/// Resolve every waypoint, in order, to its candidate positions.
///
/// Resolution stops at the first waypoint without any candidate, which is
/// reported as `InvalidPathItem` with its index.
pub fn extract_location_from_path_items(
    path_items: &[PathItemLocation],
    batch: &OperationalPointBatch,
) -> (r: Result<Vec<Vec<TrackOffset>>, PathfindingResult>)
    ensures
        r is Ok <==> forall|i: int|
            0 <= i < path_items@.len() ==> resolves(#[trigger] path_items@[i], *batch),
        r is Ok ==> {
            &&& r.unwrap()@.len() == path_items@.len()
            &&& forall|i: int|
                0 <= i < path_items@.len() ==> (#[trigger] r.unwrap()@[i])@ == item_candidates(
                    path_items@[i],
                    *batch,
                )
        },
        r is Err ==> exists|k: int|
            first_unresolved(path_items@, *batch, k) && r->Err_0
                == (PathfindingResult::InvalidPathItem {
                index: k as usize,
                path_item: path_items@[k],
            }),
{
    let mut result: Vec<Vec<TrackOffset>> = Vec::new();
    let mut index: usize = 0;
    while index < path_items.len()
        invariant
            index <= path_items@.len(),
            result@.len() == index,
            forall|i: int| 0 <= i < index ==> resolves(#[trigger] path_items@[i], *batch),
            forall|i: int|
                0 <= i < index ==> (#[trigger] result@[i])@ == item_candidates(
                    path_items@[i],
                    *batch,
                ),
        decreases path_items@.len() - index,
    {
        let track_offsets = item_track_offsets(&path_items[index], batch);
        if track_offsets.len() == 0 {
            let path_item = path_items[index].duplicate();
            assert(first_unresolved(path_items@, *batch, index as int));
            return Err(PathfindingResult::InvalidPathItem { index, path_item });
        }
        result.push(track_offsets);
        index = index + 1;
    }
    Ok(result)
}

/// The kinds of textual identifier by which a waypoint may name an
/// operational point.
pub enum NameKind {
    Trigram,
    ObjectId,
}

/// The identifier of kind `kind` that a waypoint names, if any.
pub open spec fn name_of(kind: NameKind, item: PathItemLocation) -> Option<Seq<char>> {
    match (kind, item) {
        (NameKind::Trigram, PathItemLocation::OperationalPointDescription { trigram, .. }) => Some(
            trigram@,
        ),
        (NameKind::ObjectId, PathItemLocation::OperationalPointId { operational_point }) => Some(
            operational_point@,
        ),
        _ => None,
    }
}

/// The UIC code that a waypoint names, if any.
pub open spec fn uic_of(item: PathItemLocation) -> Option<i64> {
    match item {
        PathItemLocation::OperationalPointUic { uic, .. } => Some(uic as i64),
        _ => None,
    }
}

/// `v` lists, once each, the identifiers of kind `kind` named by the first
/// `n` waypoints of `items`.
pub open spec fn lists_names(
    v: Seq<String>,
    items: Seq<PathItemLocation>,
    n: int,
    kind: NameKind,
) -> bool {
    &&& forall|k: int|
        0 <= k < v.len() ==> exists|j: int|
            0 <= j < n && #[trigger] name_of(kind, items[j]) == Some(#[trigger] v[k]@)
    &&& forall|j: int|
        0 <= j < n && (#[trigger] name_of(kind, items[j])) is Some ==> exists|k: int|
            0 <= k < v.len() && Some(#[trigger] v[k]@) == name_of(kind, items[j])
    &&& forall|a: int, b: int| 0 <= a < b < v.len() ==> v[a]@ != v[b]@
}

/// `v` lists, once each, the UIC codes named by the first `n` waypoints of
/// `items`.
pub open spec fn lists_uics(v: Seq<i64>, items: Seq<PathItemLocation>, n: int) -> bool {
    &&& forall|k: int|
        0 <= k < v.len() ==> exists|j: int|
            0 <= j < n && #[trigger] uic_of(items[j]) == Some(#[trigger] v[k])
    &&& forall|j: int|
        0 <= j < n && (#[trigger] uic_of(items[j])) is Some ==> exists|k: int|
            0 <= k < v.len() && Some(#[trigger] v[k]) == uic_of(items[j])
    &&& forall|a: int, b: int| 0 <= a < b < v.len() ==> v[a] != v[b]
}

fn uic_position(v: &Vec<i64>, u: i64) -> (r: Option<usize>)
    ensures
        match r {
            Some(k) => k < v@.len() && v@[k as int] == u,
            None => forall|k: int| 0 <= k < v@.len() ==> v@[k] != u,
        },
{
    let mut i: usize = 0;
    while i < v.len()
        invariant
            i <= v@.len(),
            forall|k: int| 0 <= k < i ==> v@[k] != u,
        decreases v@.len() - i,
    {
        if v[i] == u {
            return Some(i);
        }
        i = i + 1;
    }
    None
}

/// Add `s` to the distinct names `v` named by `items[..n]`, where `items[n]`
/// names `s`.
fn add_name(
    v: &mut Vec<String>,
    s: &String,
    Ghost(items): Ghost<Seq<PathItemLocation>>,
    Ghost(n): Ghost<int>,
    Ghost(kind): Ghost<NameKind>,
)
    requires
        0 <= n < items.len(),
        lists_names(old(v)@, items, n, kind),
        name_of(kind, items[n]) == Some(s@),
    ensures
        lists_names(final(v)@, items, n + 1, kind),
{
    match crate::tracks::position(v, s) {
        Some(k) => {
            assert(Some(v@[k as int]@) == name_of(kind, items[n]));
        },
        None => {
            let ghost before = v@;
            v.push(s.clone());
            assert(v@[before.len() as int]@ == s@);
            assert forall|k: int| 0 <= k < v@.len() implies exists|j: int|
                0 <= j < n + 1 && #[trigger] name_of(kind, items[j]) == Some(
                    #[trigger] v@[k]@,
                ) by {
                if k < before.len() {
                    assert(v@[k] == before[k]);
                } else {
                    assert(name_of(kind, items[n]) == Some(v@[k]@));
                }
            }
            assert forall|j: int| 0 <= j < n + 1 && (#[trigger] name_of(kind, items[j])) is Some implies exists|k: int|
                0 <= k < v@.len() && Some(#[trigger] v@[k]@) == name_of(kind, items[j]) by {
                if j < n {
                    let k = choose|k: int| 0 <= k < before.len() && Some(#[trigger] before[k]@) == name_of(kind, items[j]);
                    assert(v@[k] == before[k]);
                } else {
                    assert(Some(v@[before.len() as int]@) == name_of(kind, items[j]));
                }
            }
        },
    }
}

/// Add `u` to the distinct UIC codes `v` named by `items[..n]`, where
/// `items[n]` names `u`.
fn add_uic(
    v: &mut Vec<i64>,
    u: i64,
    Ghost(items): Ghost<Seq<PathItemLocation>>,
    Ghost(n): Ghost<int>,
)
    requires
        0 <= n < items.len(),
        lists_uics(old(v)@, items, n),
        uic_of(items[n]) == Some(u),
    ensures
        lists_uics(final(v)@, items, n + 1),
{
    match uic_position(v, u) {
        Some(k) => {
            assert(Some(v@[k as int]) == uic_of(items[n]));
        },
        None => {
            let ghost before = v@;
            v.push(u);
            assert forall|k: int| 0 <= k < v@.len() implies exists|j: int|
                0 <= j < n + 1 && #[trigger] uic_of(items[j]) == Some(#[trigger] v@[k]) by {
                if k < before.len() {
                    assert(v@[k] == before[k]);
                } else {
                    assert(uic_of(items[n]) == Some(v@[k]));
                }
            }
            assert forall|j: int| 0 <= j < n + 1 && (#[trigger] uic_of(items[j])) is Some implies exists|k: int|
                0 <= k < v@.len() && Some(#[trigger] v@[k]) == uic_of(items[j]) by {
                if j < n {
                    let k = choose|k: int| 0 <= k < before.len() && Some(#[trigger] before[k]) == uic_of(items[j]);
                    assert(v@[k] == before[k]);
                } else {
                    assert(Some(v@[before.len() as int]) == uic_of(items[j]));
                }
            }
        },
    }
}

/// The distinct trigrams, UIC codes and object ids that the waypoints
/// name, so that each kind is fetched in one batched lookup.
pub fn collect_path_item_ids(path_items: &[PathItemLocation]) -> (r: (
    Vec<String>,
    Vec<i64>,
    Vec<String>,
))
    ensures
        lists_names(r.0@, path_items@, path_items@.len() as int, NameKind::Trigram),
        lists_uics(r.1@, path_items@, path_items@.len() as int),
        lists_names(r.2@, path_items@, path_items@.len() as int, NameKind::ObjectId),
{
    let mut trigrams: Vec<String> = Vec::new();
    let mut ops_uic: Vec<i64> = Vec::new();
    let mut ops_id: Vec<String> = Vec::new();
    let mut i: usize = 0;
    while i < path_items.len()
        invariant
            i <= path_items@.len(),
            lists_names(trigrams@, path_items@, i as int, NameKind::Trigram),
            lists_uics(ops_uic@, path_items@, i as int),
            lists_names(ops_id@, path_items@, i as int, NameKind::ObjectId),
        decreases path_items@.len() - i,
    {
        let ghost items = path_items@;
        match &path_items[i] {
            PathItemLocation::OperationalPointDescription { trigram, .. } => {
                assert(uic_of(items[i as int]) is None);
                assert(name_of(NameKind::ObjectId, items[i as int]) is None);
                add_name(&mut trigrams, trigram, Ghost(items), Ghost(i as int), Ghost(NameKind::Trigram));
                assert(lists_uics(ops_uic@, items, i + 1));
                assert(lists_names(ops_id@, items, i + 1, NameKind::ObjectId));
            },
            PathItemLocation::OperationalPointUic { uic, .. } => {
                add_uic(&mut ops_uic, *uic as i64, Ghost(items), Ghost(i as int));
                assert(lists_names(trigrams@, items, i + 1, NameKind::Trigram));
                assert(lists_names(ops_id@, items, i + 1, NameKind::ObjectId));
            },
            PathItemLocation::OperationalPointId { operational_point } => {
                add_name(&mut ops_id, operational_point, Ghost(items), Ghost(i as int), Ghost(NameKind::ObjectId));
                assert(lists_names(trigrams@, items, i + 1, NameKind::Trigram));
                assert(lists_uics(ops_uic@, items, i + 1));
            },
            PathItemLocation::TrackOffset(_) => {
                assert(lists_names(trigrams@, items, i + 1, NameKind::Trigram));
                assert(lists_uics(ops_uic@, items, i + 1));
                assert(lists_names(ops_id@, items, i + 1, NameKind::ObjectId));
            },
        }
        i = i + 1;
    }
    (trigrams, ops_uic, ops_id)
}

/// Each waypoint's candidates depend on that waypoint alone: reordering
/// the waypoints reorders their candidate lists in the same way, and
/// leaves unchanged whether every waypoint resolves.
pub proof fn lemma_resolution_follows_order(
    items: Seq<PathItemLocation>,
    permuted: Seq<PathItemLocation>,
    perm: Seq<int>,
    batch: OperationalPointBatch,
)
    requires
        permuted.len() == items.len(),
        perm.len() == items.len(),
        forall|i: int|
            0 <= i < perm.len() ==> 0 <= #[trigger] perm[i] < items.len() && permuted[i]
                == items[perm[i]],
        forall|j: int| 0 <= j < items.len() ==> #[trigger] perm.contains(j),
    ensures
        forall|i: int|
            0 <= i < permuted.len() ==> item_candidates(#[trigger] permuted[i], batch)
                == item_candidates(items[perm[i]], batch),
        (forall|i: int| 0 <= i < permuted.len() ==> resolves(#[trigger] permuted[i], batch)) <==> (
        forall|j: int| 0 <= j < items.len() ==> resolves(#[trigger] items[j], batch)),
{
    if forall|i: int| 0 <= i < permuted.len() ==> resolves(#[trigger] permuted[i], batch) {
        assert forall|j: int| 0 <= j < items.len() implies resolves(#[trigger] items[j], batch) by {
            assert(perm.contains(j));
            let i = choose|i: int| 0 <= i < perm.len() && #[trigger] perm[i] == j;
            assert(resolves(permuted[i], batch));
        }
    }
    if forall|j: int| 0 <= j < items.len() ==> resolves(#[trigger] items[j], batch) {
        assert forall|i: int| 0 <= i < permuted.len() implies resolves(#[trigger] permuted[i], batch) by {
            assert(resolves(items[perm[i]], batch));
        }
    }
}

/// Of two operational points that share a trigram but not their secondary
/// code, a waypoint asking for the first one's secondary code resolves to
/// the first one's attachments only; a waypoint asking for no secondary
/// code resolves to the attachments of both.
pub proof fn lemma_qualifier_filtering(
    batch: OperationalPointBatch,
    trigram: String,
    code: String,
)
    requires
        views(batch.by_trigram@).len() == 2,
        views(batch.by_trigram@)[0].trigram == Some(trigram@),
        views(batch.by_trigram@)[1].trigram == Some(trigram@),
        views(batch.by_trigram@)[0].secondary_code == Some(code@),
        views(batch.by_trigram@)[1].secondary_code != Some(code@),
    ensures
        item_candidates(
            PathItemLocation::OperationalPointDescription { trigram, secondary_code: Some(code) },
            batch,
        ) == views(batch.by_trigram@)[0].parts,
        item_candidates(
            PathItemLocation::OperationalPointDescription { trigram, secondary_code: None },
            batch,
        ) == views(batch.by_trigram@)[0].parts + views(batch.by_trigram@)[1].parts,
{
    let ops = views(batch.by_trigram@);
    let first = ops[0];
    let second = ops[1];
    let with_code = PathItemLocation::OperationalPointDescription {
        trigram,
        secondary_code: Some(code),
    };
    let without = PathItemLocation::OperationalPointDescription { trigram, secondary_code: None };
    assert(ops =~= seq![first, second]);
    assert(seq![first, second].drop_last() =~= seq![first]);
    assert(seq![first].drop_last() =~= Seq::<OperationalPointView>::empty());
    assert(keyed_ops(with_code, Seq::<OperationalPointView>::empty()) =~= Seq::<OperationalPointView>::empty());
    assert(keyed_ops(without, Seq::<OperationalPointView>::empty()) =~= Seq::<OperationalPointView>::empty());
    assert(keyed_ops(with_code, seq![first]) =~= seq![first]);
    assert(keyed_ops(without, seq![first]) =~= seq![first]);
    assert(keyed_ops(with_code, ops) =~= seq![first, second]);
    assert(keyed_ops(without, ops) =~= seq![first, second]);
    assert(qualified(Some(code@), Seq::<OperationalPointView>::empty()) =~= Seq::<OperationalPointView>::empty());
    assert(qualified(Some(code@), seq![first]) =~= seq![first]);
    assert(qualified(Some(code@), seq![first, second]) =~= seq![first]);
    assert(attachments(Seq::<OperationalPointView>::empty()) =~= Seq::<TrackOffset>::empty());
    assert(attachments(seq![first]) =~= first.parts);
    assert(attachments(seq![first, second]) =~= first.parts + second.parts);
}

} // verus!
