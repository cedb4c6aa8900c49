//! Block entities collected during region processing, filtered by the
//! configured sign text patterns and merged into one final record.

use vstd::prelude::*;
use regex::RegexSet;
use crate::patterns::{keep_text, regex_set_patterns, spec_keep};

verus! {

broadcast use vstd::prelude::Seq::lemma_filter_push;

/// One block entity (a sign or similar) discovered while decoding a region
pub struct BlockEntity {
    /// Block X coordinate in the world
    pub x: i32,
    /// Block Y coordinate in the world
    pub y: i32,
    /// Block Z coordinate in the world
    pub z: i32,
    /// The entity's display text
    pub text: String,
}

/// Data structure for storing entity data between processing and collection steps
pub struct ProcessedEntities {
    /// List of block entities
    pub block_entities: Vec<BlockEntity>,
}

/// Copies one block entity record
fn clone_entity(e: &BlockEntity) -> (r: BlockEntity)
    ensures
        r == *e,
{
    BlockEntity { x: e.x, y: e.y, z: e.z, text: e.text.clone() }
}

/// Collects the block entities of one region, keeping a record iff its
/// display text matches any configured pattern (all records are kept when no
/// patterns are configured)
pub fn collect_entities(entities: &Vec<BlockEntity>, rs: &RegexSet) -> (r: ProcessedEntities)
    ensures
        r.block_entities@ == entities@.filter(
            |e: BlockEntity| spec_keep(regex_set_patterns(*rs), e.text@),
        ),
{
    let ghost pred = |e: BlockEntity| spec_keep(regex_set_patterns(*rs), e.text@);
    let mut kept: Vec<BlockEntity> = Vec::new();
    let mut i: usize = 0;
    while i < entities.len()
        invariant
            i <= entities@.len(),
            pred == (|e: BlockEntity| spec_keep(regex_set_patterns(*rs), e.text@)),
            kept@ == entities@.take(i as int).filter(pred),
        decreases entities@.len() - i,
    {
        let e = &entities[i];
        if keep_text(rs, e.text.as_str()) {
            kept.push(clone_entity(e));
        }
        proof {
            assert(entities@.take(i + 1).drop_last() =~= entities@.take(i as int));
            assert(entities@.take(i + 1) =~= entities@.take(i as int).push(entities@[i as int]));
        }
        i += 1;
    }
    proof {
        assert(entities@.take(entities@.len() as int) =~= entities@);
    }
    ProcessedEntities { block_entities: kept }
}

/// The concatenation of several per-region entity lists, in order
pub open spec fn spec_concat_entities(parts: Seq<ProcessedEntities>) -> Seq<BlockEntity>
    decreases parts.len(),
{
    if parts.len() == 0 {
        Seq::empty()
    } else {
        spec_concat_entities(parts.drop_last()) + parts.last().block_entities@
    }
}

/// Merges all per-region entity records into the one final record
///
/// The result lists every region's block entities, in region order.
pub fn merge_entities(parts: &Vec<ProcessedEntities>) -> (r: ProcessedEntities)
    ensures
        r.block_entities@ == spec_concat_entities(parts@),
{
    let mut merged: Vec<BlockEntity> = Vec::new();
    let mut i: usize = 0;
    while i < parts.len()
        invariant
            i <= parts@.len(),
            merged@ == spec_concat_entities(parts@.take(i as int)),
        decreases parts@.len() - i,
    {
        let part = &parts[i];
        let ghost base = merged@;
        let mut j: usize = 0;
        while j < part.block_entities.len()
            invariant
                j <= part.block_entities@.len(),
                part == &parts@[i as int],
                merged@ == base + part.block_entities@.take(j as int),
            decreases part.block_entities@.len() - j,
        {
            merged.push(clone_entity(&part.block_entities[j]));
            proof {
                assert(base + part.block_entities@.take(j + 1) =~= (base
                    + part.block_entities@.take(j as int)).push(part.block_entities@[j as int]));
            }
            j += 1;
        }
        proof {
            assert(part.block_entities@.take(part.block_entities@.len() as int)
                =~= part.block_entities@);
            assert(parts@.take(i + 1).drop_last() =~= parts@.take(i as int));
            assert(parts@.take(i + 1).last() == parts@[i as int]);
        }
        i += 1;
    }
    proof {
        assert(parts@.take(parts@.len() as int) =~= parts@);
    }
    ProcessedEntities { block_entities: merged }
}

} // verus!
