//! The populated-tile coordinate set: which tile coordinates produced output
//! at a given mipmap level, grouped by `z` for the viewer metadata.

use vstd::prelude::*;
use std::collections::{BTreeMap, BTreeSet};
use crate::coords::TileCoords;

verus! {

broadcast use vstd::std_specs::btree::group_btree_axioms, vstd::laws_cmp::group_laws_cmp;

/// Set of tile coordinates
///
/// Maps each `z` coordinate to the ordered set of populated `x` coordinates.
#[derive(Debug, Clone)]
pub struct TileCoordMap(pub BTreeMap<i32, BTreeSet<i32>>);

impl TileCoordMap {
    /// Whether the map holds a given coordinate pair
    pub open spec fn spec_contains(self, coords: TileCoords) -> bool {
        self.0@.contains_key(coords.z) && self.0@[coords.z]@.contains(coords.x)
    }

    /// Creates an empty coordinate map
    pub fn new() -> (r: TileCoordMap)
        ensures
            forall|c: TileCoords| !r.spec_contains(c),
    {
        TileCoordMap(BTreeMap::new())
    }

    /// Checks whether the map contains a given coordinate pair
    pub fn contains(&self, coords: TileCoords) -> (r: bool)
        ensures
            r == self.spec_contains(coords),
    {
        match self.0.get(&coords.z) {
            Some(xs) => xs.contains(&coords.x),
            None => false,
        }
    }

    /// Records a coordinate pair; every other pair's membership is unchanged
    pub fn insert(&mut self, coords: TileCoords)
        ensures
            final (self).spec_contains(coords),
            forall|c: TileCoords|
                c != coords ==> final (self).spec_contains(c) == old(self).spec_contains(c),
    {
        let mut xs: BTreeSet<i32> = match self.0.remove(&coords.z) {
            Some(xs) => xs,
            None => BTreeSet::new(),
        };
        xs.insert(coords.x);
        self.0.insert(coords.z, xs);
    }

    /// Collects a list of coordinates into a coordinate map
    ///
    /// The result holds exactly the coordinates of the list.
    pub fn from_coords(coords: &Vec<TileCoords>) -> (r: TileCoordMap)
        ensures
            forall|c: TileCoords| r.spec_contains(c) == coords@.contains(c),
    {
        let mut r = TileCoordMap::new();
        let mut i: usize = 0;
        while i < coords.len()
            invariant
                i <= coords@.len(),
                forall|c: TileCoords| r.spec_contains(c) == coords@.take(i as int).contains(c),
            decreases coords@.len() - i,
        {
            let ghost prev = r;
            r.insert(coords[i]);
            proof {
                assert(coords@.take(i + 1).drop_last() =~= coords@.take(i as int));
                assert forall|c: TileCoords| r.spec_contains(c) == coords@.take(
                    i + 1,
                ).contains(c) by {
                    if c == coords@[i as int] {
                        assert(coords@.take(i + 1)[i as int] == c);
                    } else {
                        assert(coords@.take(i + 1).contains(c) == coords@.take(
                            i as int,
                        ).contains(c)) by {
                            if coords@.take(i + 1).contains(c) {
                                let j = choose|j: int|
                                    0 <= j < coords@.take(i + 1).len() && #[trigger] coords@.take(
                                        i + 1,
                                    )[j] == c;
                                assert(coords@.take(i as int)[j] == c);
                            } else if coords@.take(i as int).contains(c) {
                                let j = choose|j: int|
                                    0 <= j < coords@.take(i as int).len() && #[trigger] coords@.take(
                                        i as int,
                                    )[j] == c;
                                assert(coords@.take(i + 1)[j] == c);
                            }
                        }
                    }
                }
            }
            i += 1;
        }
        proof {
            assert(coords@.take(coords@.len() as int) =~= coords@);
        }
        r
    }
}

impl Default for TileCoordMap {
    /// An empty coordinate map
    fn default() -> (r: TileCoordMap)
        ensures
            forall|c: TileCoords| !r.spec_contains(c),
    {
        TileCoordMap::new()
    }
}

} // verus!
