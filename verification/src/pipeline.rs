//! Run planning of the pipeline: the stage order of one run, and the
//! per-region decision which artifacts must be recomputed and which cached
//! ones may be reused.

use vstd::prelude::*;
use crate::cache::{spec_is_valid, ArtifactKind, FileMetaVersion, VersionTable};
use crate::coords::TileCoords;

verus! {

broadcast use vstd::prelude::Seq::lemma_filter_push;

/// The stages of one run, in their strict order
///
/// Mipmap levels are built strictly one after the other, since each level
/// reads the tiles the previous one wrote.
#[derive(Clone, Copy, PartialEq, Eq, Structural, Debug)]
pub enum PipelineStage {
    /// Enumerate the available region files
    Discover,
    /// Build the processed representation of every discovered region
    Process,
    /// Render the base color and illumination tiles
    RenderBase,
    /// Build the mipmap tiles of one level
    BuildMipmaps(usize),
    /// Merge the entity records and write the viewer metadata
    Finalize,
    /// The run is complete
    Done,
}

/// The stage that follows a given stage
///
/// While building mipmap level `l`, `more_levels` says whether that level
/// produced any tiles: only then does a next level follow.
pub open spec fn spec_next_stage(stage: PipelineStage, more_levels: bool) -> PipelineStage {
    match stage {
        PipelineStage::Discover => PipelineStage::Process,
        PipelineStage::Process => PipelineStage::RenderBase,
        PipelineStage::RenderBase => PipelineStage::BuildMipmaps(0),
        PipelineStage::BuildMipmaps(l) => if more_levels {
            PipelineStage::BuildMipmaps((l + 1) as usize)
        } else {
            PipelineStage::Finalize
        },
        PipelineStage::Finalize => PipelineStage::Done,
        PipelineStage::Done => PipelineStage::Done,
    }
}

/// Advances the run to its next stage
pub fn next_stage(stage: PipelineStage, more_levels: bool) -> (r: PipelineStage)
    requires
        stage matches PipelineStage::BuildMipmaps(l) ==> l < usize::MAX,
    ensures
        r == spec_next_stage(stage, more_levels),
{
    match stage {
        PipelineStage::Discover => PipelineStage::Process,
        PipelineStage::Process => PipelineStage::RenderBase,
        PipelineStage::RenderBase => PipelineStage::BuildMipmaps(0),
        PipelineStage::BuildMipmaps(l) => if more_levels {
            PipelineStage::BuildMipmaps(l + 1)
        } else {
            PipelineStage::Finalize
        },
        PipelineStage::Finalize => PipelineStage::Done,
        PipelineStage::Done => PipelineStage::Done,
    }
}

/// What is known of one cached artifact on disk: its stored version tag and
/// its modification time
#[derive(Clone, Copy, PartialEq, Eq, Structural, Debug)]
pub struct CachedArtifact {
    /// The version tag stored in the artifact's header
    pub stored_version: FileMetaVersion,
    /// The artifact's modification time
    pub cached_mtime: u64,
}

/// Whether a possibly missing cached artifact may be reused
///
/// A missing artifact is never reusable; cache staleness is not an error, it
/// only triggers recomputation.
pub open spec fn spec_cache_usable(
    versions: VersionTable,
    kind: ArtifactKind,
    cached: Option<CachedArtifact>,
    source_mtime: u64,
) -> bool {
    cached is Some && spec_is_valid(
        versions,
        kind,
        cached->Some_0.stored_version,
        source_mtime,
        cached->Some_0.cached_mtime,
    )
}

/// The work one region contributes to a run
#[derive(Clone, Copy, PartialEq, Eq, Structural, Debug)]
pub struct RegionPlan {
    /// The region's coordinate
    pub coords: TileCoords,
    /// Whether the processed representation must be rebuilt
    pub process: bool,
    /// Whether the base color tile must be rendered
    pub render_color: bool,
    /// Whether the base illumination tile must be rendered
    pub render_lightmap: bool,
    /// Whether the region's entities must be collected again
    pub collect_entities: bool,
}

impl RegionPlan {
    /// A plan that reuses every cached artifact and does no work
    pub open spec fn spec_is_noop(self) -> bool {
        !self.process && !self.render_color && !self.render_lightmap && !self.collect_entities
    }
}

/// The plan for one region: each artifact is recomputed iff its cache cannot
/// be used
pub open spec fn spec_plan_region(
    versions: VersionTable,
    coords: TileCoords,
    source_mtime: u64,
    processed: Option<CachedArtifact>,
    tile_color: Option<CachedArtifact>,
    tile_lightmap: Option<CachedArtifact>,
    entities: Option<CachedArtifact>,
) -> RegionPlan {
    (RegionPlan {
        coords,
        process: !spec_cache_usable(versions, ArtifactKind::Processed, processed, source_mtime),
        render_color: !spec_cache_usable(versions, ArtifactKind::TileMap, tile_color, source_mtime),
        render_lightmap: !spec_cache_usable(
            versions,
            ArtifactKind::TileLightmap,
            tile_lightmap,
            source_mtime,
        ),
        collect_entities: !spec_cache_usable(
            versions,
            ArtifactKind::Entities,
            entities,
            source_mtime,
        ),
    })
}

/// Decides one region's work for this run
///
/// Each of the region's artifacts is recomputed exactly when its cached copy
/// is missing, carries a version tag other than the current one for its
/// kind, or is older than the region file it was derived from. A skipped
/// region still contributes its coordinate to the populated-tile
/// bookkeeping; see `collect_populated`.
pub fn plan_region(
    versions: &VersionTable,
    coords: TileCoords,
    source_mtime: u64,
    processed: Option<CachedArtifact>,
    tile_color: Option<CachedArtifact>,
    tile_lightmap: Option<CachedArtifact>,
    entities: Option<CachedArtifact>,
) -> (r: RegionPlan)
    ensures
        r == spec_plan_region(
            *versions,
            coords,
            source_mtime,
            processed,
            tile_color,
            tile_lightmap,
            entities,
        ),
{
    RegionPlan {
        coords,
        process: !cache_usable(versions, ArtifactKind::Processed, processed, source_mtime),
        render_color: !cache_usable(versions, ArtifactKind::TileMap, tile_color, source_mtime),
        render_lightmap: !cache_usable(
            versions,
            ArtifactKind::TileLightmap,
            tile_lightmap,
            source_mtime,
        ),
        collect_entities: !cache_usable(versions, ArtifactKind::Entities, entities, source_mtime),
    }
}

/// Decides whether a possibly missing cached artifact may be reused
pub fn cache_usable(
    versions: &VersionTable,
    kind: ArtifactKind,
    cached: Option<CachedArtifact>,
    source_mtime: u64,
) -> (r: bool)
    ensures
        r == spec_cache_usable(*versions, kind, cached, source_mtime),
{
    match cached {
        Some(c) => crate::cache::is_valid(
            versions,
            kind,
            c.stored_version,
            source_mtime,
            c.cached_mtime,
        ),
        None => false,
    }
}

/// A run over unchanged inputs with all caches valid replans no work at all:
/// every region's plan is the plan that recomputes nothing, so the run
/// rewrites no artifact and decodes no chunk, and the output on disk stays
/// byte for byte as the previous run left it.
pub proof fn lemma_valid_caches_idempotent(
    versions: VersionTable,
    coords: TileCoords,
    source_mtime: u64,
    processed: Option<CachedArtifact>,
    tile_color: Option<CachedArtifact>,
    tile_lightmap: Option<CachedArtifact>,
    entities: Option<CachedArtifact>,
)
    requires
        spec_cache_usable(versions, ArtifactKind::Processed, processed, source_mtime),
        spec_cache_usable(versions, ArtifactKind::TileMap, tile_color, source_mtime),
        spec_cache_usable(versions, ArtifactKind::TileLightmap, tile_lightmap, source_mtime),
        spec_cache_usable(versions, ArtifactKind::Entities, entities, source_mtime),
    ensures
        spec_plan_region(
            versions,
            coords,
            source_mtime,
            processed,
            tile_color,
            tile_lightmap,
            entities,
        ).spec_is_noop(),
        spec_plan_region(
            versions,
            coords,
            source_mtime,
            processed,
            tile_color,
            tile_lightmap,
            entities,
        ).coords == coords,
{
}

/// Collects the populated level-0 tile coordinates of a run
///
/// Takes one entry per discovered region: its coordinate and whether the
/// region has any present chunk (and hence a tile, freshly rendered or
/// cached). The result holds exactly the coordinates of the entries flagged
/// true, in discovery order; whether a region's work was skipped does not
/// enter, so skipping cannot corrupt the downstream bookkeeping.
pub fn collect_populated(regions: &Vec<(TileCoords, bool)>) -> (r: Vec<TileCoords>)
    ensures
        r@ == regions@.filter(|e: (TileCoords, bool)| e.1).map_values(
            |e: (TileCoords, bool)| e.0,
        ),
        forall|p: TileCoords|
            #[trigger] r@.contains(p) <==> (exists|k: int|
                0 <= k < regions@.len() && #[trigger] regions@[k] == (p, true)),
{
    let ghost flagged = |e: (TileCoords, bool)| e.1;
    let ghost coord_of = |e: (TileCoords, bool)| e.0;
    let mut out: Vec<TileCoords> = Vec::new();
    let mut i: usize = 0;
    while i < regions.len()
        invariant
            i <= regions@.len(),
            flagged == (|e: (TileCoords, bool)| e.1),
            coord_of == (|e: (TileCoords, bool)| e.0),
            out@ == regions@.take(i as int).filter(flagged).map_values(coord_of),
            forall|p: TileCoords|
                #[trigger] out@.contains(p) <==> (exists|k: int|
                    0 <= k < i && #[trigger] regions@[k] == (p, true)),
        decreases regions@.len() - i,
    {
        let (coords, has_output) = regions[i];
        let ghost out_before = out@;
        if has_output {
            out.push(coords);
        }
        proof {
            assert(regions@.take(i + 1).drop_last() =~= regions@.take(i as int));
            assert(regions@.take(i + 1) =~= regions@.take(i as int).push(regions@[i as int]));
            assert(out@ =~= regions@.take(i + 1).filter(flagged).map_values(coord_of));
            assert forall|p: TileCoords| #[trigger] out@.contains(p) implies (exists|k: int|
                0 <= k < i + 1 && #[trigger] regions@[k] == (p, true)) by {
                if has_output && p == coords {
                    assert(regions@[i as int] == (p, true));
                } else {
                    let j = choose|j: int| 0 <= j < out@.len() && out@[j] == p;
                    assert(out_before[j] == p);
                    assert(out_before.contains(p));
                }
            }
            assert forall|p: TileCoords|
                (exists|k: int| 0 <= k < i + 1 && #[trigger] regions@[k] == (p, true))
                    implies #[trigger] out@.contains(p) by {
                let k = choose|k: int| 0 <= k < i + 1 && #[trigger] regions@[k] == (p, true);
                if k < i {
                    assert(out_before.contains(p));
                    let j = choose|j: int| 0 <= j < out_before.len() && out_before[j] == p;
                    assert(out@[j] == p);
                } else {
                    assert(out@[out@.len() - 1] == p);
                }
            }
        }
        i += 1;
    }
    proof {
        assert(regions@.take(regions@.len() as int) =~= regions@);
    }
    out
}

} // verus!
