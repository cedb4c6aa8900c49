//! The per-level coordinate pass of the mipmap builder: grouping the
//! populated tile coordinates of one level by their coarser parent
//! coordinate.

use vstd::prelude::*;
use crate::coords::TileCoords;
use crate::tile_coord_map::TileCoordMap;

verus! {

/// Computes the distinct parent coordinates of a level's populated tiles
///
/// A coordinate is in the result iff it is the parent of some populated tile
/// of the finer level; each parent appears exactly once. An empty level
/// yields an empty result, which ends the mipmap recursion.
pub fn parents_of(coords: &Vec<TileCoords>) -> (r: Vec<TileCoords>)
    ensures
        forall|p: TileCoords|
            #[trigger] r@.contains(p) <==> (exists|c: TileCoords|
                #[trigger] coords@.contains(c) && c.spec_parent() == p),
        forall|k1: int, k2: int| 0 <= k1 < k2 < r@.len() ==> r@[k1] != r@[k2],
{
    let mut out: Vec<TileCoords> = Vec::new();
    let mut seen = TileCoordMap::new();
    let mut i: usize = 0;
    while i < coords.len()
        invariant
            i <= coords@.len(),
            forall|p: TileCoords| #[trigger] seen.spec_contains(p) <==> out@.contains(p),
            forall|p: TileCoords|
                #[trigger] out@.contains(p) <==> (exists|k: int|
                    0 <= k < i && (#[trigger] coords@[k]).spec_parent() == p),
            forall|k1: int, k2: int| 0 <= k1 < k2 < out@.len() ==> out@[k1] != out@[k2],
        decreases coords@.len() - i,
    {
        let p = coords[i].parent();
        if !seen.contains(p) {
            let ghost out_before = out@;
            seen.insert(p);
            out.push(p);
            proof {
                assert forall|q: TileCoords| #[trigger] out@.contains(q) implies (exists|k: int|
                    0 <= k <= i && (#[trigger] coords@[k]).spec_parent() == q) by {
                    if q == p {
                        assert(coords@[i as int].spec_parent() == q);
                    } else {
                        let j = choose|j: int| 0 <= j < out@.len() && out@[j] == q;
                        assert(out_before[j] == q);
                        assert(out_before.contains(q));
                    }
                }
                assert forall|q: TileCoords|
                    (exists|k: int| 0 <= k <= i && (#[trigger] coords@[k]).spec_parent() == q)
                        implies #[trigger] out@.contains(q) by {
                    let k = choose|k: int|
                        0 <= k <= i && (#[trigger] coords@[k]).spec_parent() == q;
                    if k < i {
                        assert(out_before.contains(q));
                        let j = choose|j: int| 0 <= j < out_before.len() && out_before[j] == q;
                        assert(out@[j] == q);
                    } else {
                        assert(out@[out@.len() - 1] == q);
                    }
                }
            }
        } else {
            proof {
                assert forall|q: TileCoords|
                    (exists|k: int| 0 <= k <= i && (#[trigger] coords@[k]).spec_parent() == q)
                        implies #[trigger] out@.contains(q) by {
                    let k = choose|k: int|
                        0 <= k <= i && (#[trigger] coords@[k]).spec_parent() == q;
                    if k == i {
                        assert(out@.contains(p));
                    }
                }
            }
        }
        proof {
            assert forall|q: TileCoords| #[trigger] out@.contains(q) implies (exists|k: int|
                0 <= k < i + 1 && (#[trigger] coords@[k]).spec_parent() == q) by {
                let k = choose|k: int| 0 <= k <= i && (#[trigger] coords@[k]).spec_parent() == q;
                assert(0 <= k < i + 1 && coords@[k].spec_parent() == q);
            }
        }
        i += 1;
    }
    proof {
        assert forall|p: TileCoords| #[trigger] out@.contains(p) implies (exists|c: TileCoords|
            #[trigger] coords@.contains(c) && c.spec_parent() == p) by {
            let k = choose|k: int|
                0 <= k < coords@.len() && (#[trigger] coords@[k]).spec_parent() == p;
            assert(coords@.contains(coords@[k]));
        }
        assert forall|p: TileCoords|
            (exists|c: TileCoords| #[trigger] coords@.contains(c) && c.spec_parent() == p)
                implies #[trigger] out@.contains(p) by {
            let c = choose|c: TileCoords| #[trigger] coords@.contains(c) && c.spec_parent() == p;
            let k = choose|k: int| 0 <= k < coords@.len() && coords@[k] == c;
            assert(coords@[k].spec_parent() == p);
        }
    }
    out
}

/// Records a level's populated tile coordinates for the viewer metadata
///
/// The coordinate map of a level holds exactly the coordinates of the tiles
/// that produced output at that level.
pub fn level_coord_map(coords: &Vec<TileCoords>) -> (r: TileCoordMap)
    ensures
        forall|c: TileCoords| r.spec_contains(c) == coords@.contains(c),
{
    TileCoordMap::from_coords(coords)
}

} // verus!
