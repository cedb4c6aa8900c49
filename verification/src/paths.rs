//! Derivation of every artifact's path from the base directories, the tile
//! coordinates, the mipmap level and the tile kind, plus the common run
//! configuration these paths come from.

use vstd::prelude::*;
use regex::RegexSet;
use crate::coords::TileCoords;
use crate::patterns::{
    compile_sign_patterns, regex_compilable, regex_set_patterns, spec_sign_patterns, ConfigError,
};
use crate::text::{push_decimal_i32, push_decimal_usize, spec_decimal, spec_udecimal};

verus! {

/// Tile kind corresponding to a map layer
#[derive(Clone, Copy, PartialEq, Eq, Structural, Debug)]
pub enum TileKind {
    /// Regular map tile containing block colors
    Color,
    /// Lightmap tile for the illumination layer
    Lightmap,
}

/// The characters of a coordinate-derived filename: `r.{x}.{z}.{ext}`
pub open spec fn spec_coord_filename(coords: TileCoords, ext: Seq<char>) -> Seq<char> {
    seq!['r', '.'] + spec_decimal(coords.x as int) + seq!['.'] + spec_decimal(coords.z as int)
        + seq!['.'] + ext
}

/// Derives a filename from region coordinates and a file extension
///
/// Can be used for input regions, processed data or rendered tiles.
pub fn coord_filename(coords: TileCoords, ext: &str) -> (r: String)
    ensures
        r@ == spec_coord_filename(coords, ext@),
{
    let mut out = String::new();
    out.push('r');
    out.push('.');
    push_decimal_i32(coords.x, &mut out);
    out.push('.');
    push_decimal_i32(coords.z, &mut out);
    out.push('.');
    out.push_str(ext);
    proof {
        assert(out@ =~= spec_coord_filename(coords, ext@));
    }
    out
}

/// The characters of a path below a directory: `{dir}/{name}`
pub open spec fn spec_path_join(dir: Seq<char>, name: Seq<char>) -> Seq<char> {
    dir + seq!['/'] + name
}

/// Joins a directory path and an entry name
pub fn path_join(dir: &str, name: &str) -> (r: String)
    ensures
        r@ == spec_path_join(dir@, name@),
{
    let mut out = String::new();
    out.push_str(dir);
    out.push('/');
    out.push_str(name);
    proof {
        assert(out@ =~= spec_path_join(dir@, name@));
    }
    out
}

/// Relies on `num_cpus::get`: the number of logical CPUs available to the
/// process, always at least one.
#[verifier::external_body]
fn available_cpus() -> (r: usize)
    ensures
        r >= 1,
{
    num_cpus::get()
}

/// Command line arguments the configuration is derived from
pub struct Args {
    /// Requested worker count: absent for the default of one, zero for all
    /// available CPU cores
    pub jobs: Option<usize>,
    /// Path of the world directory holding the region files
    pub input_dir: String,
    /// Base path for the generated output
    pub output_dir: String,
    /// Sign text prefixes to keep, matched at the start of the text
    pub sign_prefix: Vec<String>,
    /// Free-form sign text filter expressions
    pub sign_filter: Vec<String>,
}

/// Common configuration based on command line arguments
pub struct Config {
    /// Number of threads for parallel processing
    pub num_threads: usize,
    /// Path of the input region directory
    pub region_dir: String,
    /// Path of the input `level.dat` file
    pub level_dat_path: String,
    /// Base path for storage of rendered tile data
    pub output_dir: String,
    /// Path for storage of intermediate processed data files
    pub processed_dir: String,
    /// Path for storage of processed entity data files
    pub entities_dir: String,
    /// Path for storage of the final merged processed entity data file
    pub entities_path_final: String,
    /// Path of the viewer metadata file
    pub viewer_info_path: String,
    /// Path of the viewer entities file
    pub viewer_entities_path: String,
    /// Sign text filter patterns
    pub sign_patterns: RegexSet,
}

impl Config {
    /// Creates a new configuration from command line arguments
    ///
    /// Every derived path hangs off the input or output directory. This
    /// fails, and only fails, when the sign patterns do not compile: a
    /// malformed filter expression is the one startup error.
    pub fn new(args: &Args) -> (r: Result<Config, ConfigError>)
        ensures
            r is Ok <==> regex_compilable(
                spec_sign_patterns(args.sign_prefix.deep_view(), args.sign_filter.deep_view()),
            ),
            r is Err ==> r->Err_0 == ConfigError::BadSignPattern,
            r is Ok ==> {
                let c = r->Ok_0;
                &&& (args.jobs == Some(0usize) ==> c.num_threads >= 1)
                &&& (forall|t: usize| args.jobs == Some(t) && t != 0 ==> c.num_threads == t)
                &&& (args.jobs is None ==> c.num_threads == 1)
                &&& c.region_dir@ == spec_path_join(args.input_dir@, "region"@)
                &&& c.level_dat_path@ == spec_path_join(args.input_dir@, "level.dat"@)
                &&& c.output_dir@ == args.output_dir@
                &&& c.processed_dir@ == spec_path_join(args.output_dir@, "processed"@)
                &&& c.entities_dir@ == spec_path_join(c.processed_dir@, "entities"@)
                &&& c.entities_path_final@ == spec_path_join(c.entities_dir@, "entities.bin"@)
                &&& c.viewer_info_path@ == spec_path_join(args.output_dir@, "info.json"@)
                &&& c.viewer_entities_path@ == spec_path_join(args.output_dir@, "entities.json"@)
                &&& regex_set_patterns(c.sign_patterns) == spec_sign_patterns(
                    args.sign_prefix.deep_view(),
                    args.sign_filter.deep_view(),
                )
            },
    {
        let num_threads: usize = match args.jobs {
            Some(0) => available_cpus(),
            Some(threads) => threads,
            None => 1,
        };

        let region_dir = path_join(args.input_dir.as_str(), "region");
        let level_dat_path = path_join(args.input_dir.as_str(), "level.dat");
        let processed_dir = path_join(args.output_dir.as_str(), "processed");
        let entities_dir = path_join(processed_dir.as_str(), "entities");
        let entities_path_final = path_join(entities_dir.as_str(), "entities.bin");
        let viewer_info_path = path_join(args.output_dir.as_str(), "info.json");
        let viewer_entities_path = path_join(args.output_dir.as_str(), "entities.json");

        let sign_patterns = match compile_sign_patterns(&args.sign_prefix, &args.sign_filter) {
            Ok(rs) => rs,
            Err(e) => {
                return Err(e);
            },
        };

        Ok(
            Config {
                num_threads,
                region_dir,
                level_dat_path,
                output_dir: args.output_dir.clone(),
                processed_dir,
                entities_dir,
                entities_path_final,
                viewer_info_path,
                viewer_entities_path,
                sign_patterns,
            },
        )
    }

    /// Constructs the path to an input region file
    pub fn region_path(&self, coords: TileCoords) -> (r: String)
        ensures
            r@ == spec_path_join(self.region_dir@, spec_coord_filename(coords, "mca"@)),
    {
        let filename = coord_filename(coords, "mca");
        path_join(self.region_dir.as_str(), filename.as_str())
    }

    /// Constructs the path of an intermediate processed region file
    pub fn processed_path(&self, coords: TileCoords) -> (r: String)
        ensures
            r@ == spec_path_join(self.processed_dir@, spec_coord_filename(coords, "bin"@)),
    {
        let filename = coord_filename(coords, "bin");
        path_join(self.processed_dir.as_str(), filename.as_str())
    }

    /// Constructs the base output path for processed entity data of a level
    pub fn entities_dir(&self, level: usize) -> (r: String)
        ensures
            r@ == spec_path_join(self.entities_dir@, spec_udecimal(level as nat)),
    {
        let mut level_text = String::new();
        push_decimal_usize(level, &mut level_text);
        path_join(self.entities_dir.as_str(), level_text.as_str())
    }

    /// Constructs the path of a processed entity data file
    pub fn entities_path(&self, level: usize, coords: TileCoords) -> (r: String)
        ensures
            r@ == spec_path_join(
                spec_path_join(self.entities_dir@, spec_udecimal(level as nat)),
                spec_coord_filename(coords, "bin"@),
            ),
    {
        let filename = coord_filename(coords, "bin");
        let dir = self.entities_dir(level);
        path_join(dir.as_str(), filename.as_str())
    }

    /// The directory name of a tile kind
    pub open spec fn spec_kind_prefix(kind: TileKind) -> Seq<char> {
        match kind {
            TileKind::Color => "map"@,
            TileKind::Lightmap => "light"@,
        }
    }

    /// Constructs the base output path for a tile kind and mipmap level
    pub fn tile_dir(&self, kind: TileKind, level: usize) -> (r: String)
        ensures
            r@ == spec_path_join(
                spec_path_join(self.output_dir@, Self::spec_kind_prefix(kind)),
                spec_udecimal(level as nat),
            ),
    {
        let prefix: &str = match kind {
            TileKind::Color => "map",
            TileKind::Lightmap => "light",
        };
        let kind_dir = path_join(self.output_dir.as_str(), prefix);
        let mut level_text = String::new();
        push_decimal_usize(level, &mut level_text);
        path_join(kind_dir.as_str(), level_text.as_str())
    }

    /// Constructs the path of an output tile image
    pub fn tile_path(&self, kind: TileKind, level: usize, coords: TileCoords) -> (r: String)
        ensures
            r@ == spec_path_join(
                spec_path_join(
                    spec_path_join(self.output_dir@, Self::spec_kind_prefix(kind)),
                    spec_udecimal(level as nat),
                ),
                spec_coord_filename(coords, "png"@),
            ),
    {
        let filename = coord_filename(coords, "png");
        let dir = self.tile_dir(kind, level);
        path_join(dir.as_str(), filename.as_str())
    }
}

} // verus!
