use vstd::prelude::*;

use crate::location::TrackOffset;
use crate::outcome::PathfindingResult;

verus! {

/// Some candidate of `cands`, among its first `i` lists and the first `j`
/// entries of list `i`, lies on track `t`.
pub open spec fn mentions_before(cands: Seq<Vec<TrackOffset>>, i: int, j: int, t: Seq<char>) -> bool {
    exists|a: int, b: int|
        #![trigger cands[a]@[b]]
        0 <= a <= i && a < cands.len() && 0 <= b < cands[a]@.len() && (a < i || b < j)
            && cands[a]@[b].track@ == t
}

/// Some candidate of `cands` lies on track `t`.
pub open spec fn mentions_track(cands: Seq<Vec<TrackOffset>>, t: Seq<char>) -> bool {
    exists|a: int, b: int|
        #![trigger cands[a]@[b]]
        0 <= a < cands.len() && 0 <= b < cands[a]@.len() && cands[a]@[b].track@ == t
}

/// `t` is one of the track ids in `v`.
pub open spec fn has_track(v: Seq<String>, t: Seq<char>) -> bool {
    exists|k: int| 0 <= k < v.len() && #[trigger] v[k]@ == t
}

pub open spec fn distinct(v: Seq<String>) -> bool {
    forall|a: int, b: int| 0 <= a < b < v.len() ==> v[a]@ != v[b]@
}

/// Where `s` stands in `v`, if it does.
pub(crate) fn position(v: &Vec<String>, s: &String) -> (r: Option<usize>)
    ensures
        match r {
            Some(k) => k < v@.len() && v@[k as int]@ == s@,
            None => !has_track(v@, s@),
        },
{
    let mut i: usize = 0;
    while i < v.len()
        invariant
            i <= v@.len(),
            forall|k: int| 0 <= k < i ==> v@[k]@ != s@,
        decreases v@.len() - i,
    {
        if v[i] == *s {
            return Some(i);
        }
        i = i + 1;
    }
    None
}

/// The distinct track ids that the candidate positions lie on.
pub fn referenced_tracks(track_offsets: &Vec<Vec<TrackOffset>>) -> (r: Vec<String>)
    ensures
        distinct(r@),
        forall|t: Seq<char>| has_track(r@, t) <==> mentions_track(track_offsets@, t),
{
    let mut r: Vec<String> = Vec::new();
    let mut i: usize = 0;
    while i < track_offsets.len()
        invariant
            i <= track_offsets@.len(),
            distinct(r@),
            forall|t: Seq<char>|
                has_track(r@, t) <==> mentions_before(track_offsets@, i as int, 0, t),
        decreases track_offsets@.len() - i,
    {
        let list = &track_offsets[i];
        let mut j: usize = 0;
        while j < list.len()
            invariant
                i < track_offsets@.len(),
                list@ == track_offsets@[i as int]@,
                j <= list@.len(),
                distinct(r@),
                forall|t: Seq<char>|
                    has_track(r@, t) <==> mentions_before(track_offsets@, i as int, j as int, t),
            decreases list@.len() - j,
        {
            let track = &list[j].track;
            let ghost before = r@;
            let ghost cands = track_offsets@;
            match position(&r, track) {
                Some(k) => {
                    assert forall|t: Seq<char>| has_track(r@, t) <==> mentions_before(cands, i as int, j + 1, t) by {
                        if mentions_before(cands, i as int, j + 1, t) {
                            let (a, b) = choose|a: int, b: int|
                                #![trigger cands[a]@[b]]
                                0 <= a <= i && a < cands.len() && 0 <= b < cands[a]@.len() && (a < i || b < j + 1)
                                    && cands[a]@[b].track@ == t;
                            if !(a == i && b == j) {
                                assert(mentions_before(cands, i as int, j as int, t));
                            } else {
                                assert(r@[k as int]@ == t);
                            }
                        }
                        if has_track(r@, t) {
                            assert(mentions_before(cands, i as int, j as int, t));
                        }
                    }
                },
                None => {
                    r.push(track.clone());
                    assert(r@ == before.push(r@[before.len() as int]));
                    assert(r@[before.len() as int]@ == track@);
                    assert forall|t: Seq<char>| has_track(r@, t) <==> mentions_before(cands, i as int, j + 1, t) by {
                        if mentions_before(cands, i as int, j + 1, t) {
                            let (a, b) = choose|a: int, b: int|
                                #![trigger cands[a]@[b]]
                                0 <= a <= i && a < cands.len() && 0 <= b < cands[a]@.len() && (a < i || b < j + 1)
                                    && cands[a]@[b].track@ == t;
                            if !(a == i && b == j) {
                                assert(mentions_before(cands, i as int, j as int, t));
                                assert(has_track(before, t));
                                let k = choose|k: int| 0 <= k < before.len() && #[trigger] before[k]@ == t;
                                assert(r@[k] == before[k]);
                            } else {
                                assert(r@[before.len() as int]@ == t);
                            }
                        }
                        if has_track(r@, t) {
                            let k = choose|k: int| 0 <= k < r@.len() && #[trigger] r@[k]@ == t;
                            if k < before.len() {
                                assert(before[k]@ == t);
                                assert(has_track(before, t));
                                assert(mentions_before(cands, i as int, j as int, t));
                            } else {
                                assert(cands[i as int]@[j as int].track@ == t);
                            }
                        }
                    }
                },
            }
            j = j + 1;
        }
        proof {
            let cands = track_offsets@;
            assert forall|t: Seq<char>| mentions_before(cands, i as int, list@.len() as int, t) <==> mentions_before(cands, i + 1, 0, t) by {
                if mentions_before(cands, i + 1, 0, t) {
                    let (a, b) = choose|a: int, b: int|
                        #![trigger cands[a]@[b]]
                        0 <= a <= i + 1 && a < cands.len() && 0 <= b < cands[a]@.len() && (a < i + 1 || b < 0)
                            && cands[a]@[b].track@ == t;
                    assert(cands[a]@[b].track@ == t);
                }
            }
        }
        i = i + 1;
    }
    proof {
        let cands = track_offsets@;
        assert forall|t: Seq<char>| mentions_before(cands, i as int, 0, t) <==> mentions_track(cands, t) by {
            if mentions_track(cands, t) {
                let (a, b) = choose|a: int, b: int|
                    #![trigger cands[a]@[b]]
                    0 <= a < cands.len() && 0 <= b < cands[a]@.len() && cands[a]@[b].track@ == t;
                assert(cands[a]@[b].track@ == t);
            }
        }
    }
    r
}

/// Check that every candidate position lies on a track of the
/// infrastructure, given the ids of the tracks it was found to hold.
/// Any missing track fails the whole request with `NotFoundInTracks`.
pub fn check_tracks_from_path_items(
    track_offsets: &Vec<Vec<TrackOffset>>,
    found_tracks: &Vec<String>,
) -> (r: Result<(), PathfindingResult>)
    ensures
        r is Err <==> exists|a: int, b: int|
            #![trigger track_offsets@[a]@[b]]
            0 <= a < track_offsets@.len() && 0 <= b < track_offsets@[a]@.len() && !has_track(
                found_tracks@,
                track_offsets@[a]@[b].track@,
            ),
        r is Err ==> r == Err::<(), PathfindingResult>(PathfindingResult::NotFoundInTracks),
{
    let mut i: usize = 0;
    while i < track_offsets.len()
        invariant
            i <= track_offsets@.len(),
            forall|a: int, b: int|
                #![trigger track_offsets@[a]@[b]]
                0 <= a < i && 0 <= b < track_offsets@[a]@.len() ==> has_track(
                    found_tracks@,
                    track_offsets@[a]@[b].track@,
                ),
        decreases track_offsets@.len() - i,
    {
        let list = &track_offsets[i];
        let mut j: usize = 0;
        while j < list.len()
            invariant
                i < track_offsets@.len(),
                list@ == track_offsets@[i as int]@,
                j <= list@.len(),
                forall|a: int, b: int|
                    #![trigger track_offsets@[a]@[b]]
                    0 <= a < i && 0 <= b < track_offsets@[a]@.len() ==> has_track(
                        found_tracks@,
                        track_offsets@[a]@[b].track@,
                    ),
                forall|b: int| 0 <= b < j ==> has_track(found_tracks@, #[trigger] list@[b].track@),
            decreases list@.len() - j,
        {
            match position(found_tracks, &list[j].track) {
                Some(k) => {},
                None => {
                    assert(!has_track(found_tracks@, track_offsets@[i as int]@[j as int].track@));
                    return Err(PathfindingResult::NotFoundInTracks);
                },
            }
            j = j + 1;
        }
        i = i + 1;
    }
    Ok(())
}

} // verus!
