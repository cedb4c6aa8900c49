//! Versioned cache contract: every persisted artifact kind carries its own
//! format-version constant, and a cached artifact may be reused only if its
//! stored version matches the current constant and it is not older than its
//! source.

use vstd::prelude::*;

verus! {

/// Version tag stored in the header of every persisted artifact
pub type FileMetaVersion = u32;

/// Processed region data version number
pub const REGION_FILE_META_VERSION: FileMetaVersion = 1;

/// Map tile data version number
pub const MAP_FILE_META_VERSION: FileMetaVersion = 0;

/// Lightmap tile data version number
pub const LIGHTMAP_FILE_META_VERSION: FileMetaVersion = 1;

/// Mipmap tile data version number
pub const MIPMAP_FILE_META_VERSION: FileMetaVersion = 0;

/// Processed entity data version number
pub const ENTITIES_FILE_META_VERSION: FileMetaVersion = 0;

/// The independently versioned kinds of persisted artifacts
#[derive(Clone, Copy, PartialEq, Eq, Structural, Debug)]
pub enum ArtifactKind {
    /// Processed region data derived from a raw region file
    Processed,
    /// Base color tile rendered from a processed region
    TileMap,
    /// Base illumination tile rendered from a processed region
    TileLightmap,
    /// Mipmap tile downsampled from four finer tiles
    Mipmap,
    /// Block entities collected from a raw region file
    Entities,
}

/// The table of current format versions, one per artifact kind
///
/// Held as explicit state so that bumping one kind's version can be reasoned
/// about without touching the others.
#[derive(Clone, Copy, PartialEq, Eq, Structural, Debug)]
pub struct VersionTable {
    /// Current version of processed region data
    pub processed: FileMetaVersion,
    /// Current version of base color tiles
    pub tile_map: FileMetaVersion,
    /// Current version of base illumination tiles
    pub tile_lightmap: FileMetaVersion,
    /// Current version of mipmap tiles
    pub mipmap: FileMetaVersion,
    /// Current version of collected entity data
    pub entities: FileMetaVersion,
}

impl VersionTable {
    /// The version the table holds for a given artifact kind
    pub open spec fn spec_version_of(self, kind: ArtifactKind) -> FileMetaVersion {
        match kind {
            ArtifactKind::Processed => self.processed,
            ArtifactKind::TileMap => self.tile_map,
            ArtifactKind::TileLightmap => self.tile_lightmap,
            ArtifactKind::Mipmap => self.mipmap,
            ArtifactKind::Entities => self.entities,
        }
    }

    /// Looks up the version the table holds for a given artifact kind
    pub fn version_of(&self, kind: ArtifactKind) -> (r: FileMetaVersion)
        ensures
            r == self.spec_version_of(kind),
    {
        match kind {
            ArtifactKind::Processed => self.processed,
            ArtifactKind::TileMap => self.tile_map,
            ArtifactKind::TileLightmap => self.tile_lightmap,
            ArtifactKind::Mipmap => self.mipmap,
            ArtifactKind::Entities => self.entities,
        }
    }
}

/// The version table this build of the pipeline writes and accepts
pub fn current_versions() -> (r: VersionTable)
    ensures
        r.processed == REGION_FILE_META_VERSION,
        r.tile_map == MAP_FILE_META_VERSION,
        r.tile_lightmap == LIGHTMAP_FILE_META_VERSION,
        r.mipmap == MIPMAP_FILE_META_VERSION,
        r.entities == ENTITIES_FILE_META_VERSION,
{
    VersionTable {
        processed: REGION_FILE_META_VERSION,
        tile_map: MAP_FILE_META_VERSION,
        tile_lightmap: LIGHTMAP_FILE_META_VERSION,
        mipmap: MIPMAP_FILE_META_VERSION,
        entities: ENTITIES_FILE_META_VERSION,
    }
}

/// A cached artifact is valid iff its stored version equals the current
/// constant for its kind and it is not older than its source
pub open spec fn spec_is_valid(
    versions: VersionTable,
    kind: ArtifactKind,
    stored_version: FileMetaVersion,
    source_mtime: u64,
    cached_mtime: u64,
) -> bool {
    stored_version == versions.spec_version_of(kind) && cached_mtime >= source_mtime
}

/// Decides whether a cached artifact may be reused or must be recomputed
///
/// A `false` result never signals an error: it only means "recompute and
/// overwrite".
pub fn is_valid(
    versions: &VersionTable,
    kind: ArtifactKind,
    stored_version: FileMetaVersion,
    source_mtime: u64,
    cached_mtime: u64,
) -> (r: bool)
    ensures
        r == spec_is_valid(*versions, kind, stored_version, source_mtime, cached_mtime),
{
    stored_version == versions.version_of(kind) && cached_mtime >= source_mtime
}

/// Bumping one artifact kind's version constant invalidates exactly the caches
/// of that kind: an artifact stored under the old version of the bumped kind
/// is no longer valid, while validity for every other kind is unchanged.
pub proof fn lemma_version_bump_selective(
    before: VersionTable,
    after: VersionTable,
    bumped: ArtifactKind,
    stored_version: FileMetaVersion,
    source_mtime: u64,
    cached_mtime: u64,
)
    requires
        after.spec_version_of(bumped) != before.spec_version_of(bumped),
        forall|k: ArtifactKind| k != bumped ==> after.spec_version_of(k) == before.spec_version_of(k),
    ensures
        stored_version == before.spec_version_of(bumped) ==> !spec_is_valid(
            after,
            bumped,
            stored_version,
            source_mtime,
            cached_mtime,
        ),
        forall|k: ArtifactKind|
            k != bumped ==> spec_is_valid(after, k, stored_version, source_mtime, cached_mtime)
                == spec_is_valid(before, k, stored_version, source_mtime, cached_mtime),
{
}

} // verus!
