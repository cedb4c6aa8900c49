use minedmap_core::cache::{
    current_versions, is_valid, ArtifactKind, ENTITIES_FILE_META_VERSION,
    LIGHTMAP_FILE_META_VERSION, MAP_FILE_META_VERSION, MIPMAP_FILE_META_VERSION,
    REGION_FILE_META_VERSION,
};
use minedmap_core::coords::{chunk_index, half_floor, ChunkCoords, TileCoords};
use minedmap_core::entities::{collect_entities, merge_entities, BlockEntity, ProcessedEntities};
use minedmap_core::paths::{coord_filename, path_join, Args, Config, TileKind};
use minedmap_core::patterns::{compile_sign_patterns, keep_text, ConfigError};
use minedmap_core::pipeline::{
    cache_usable, collect_populated, next_stage, plan_region, CachedArtifact, PipelineStage,
};
use minedmap_core::tile_coord_map::TileCoordMap;

fn args(input: &str, output: &str) -> Args {
    Args {
        jobs: None,
        input_dir: input.to_string(),
        output_dir: output.to_string(),
        sign_prefix: Vec::new(),
        sign_filter: Vec::new(),
    }
}

#[test]
fn coord_filename_formats_coordinates() {
    assert_eq!(coord_filename(TileCoords { x: 0, z: 0 }, "png"), "r.0.0.png");
    assert_eq!(
        coord_filename(TileCoords { x: -1, z: 2 }, "mca"),
        "r.-1.2.mca"
    );
    assert_eq!(
        coord_filename(TileCoords { x: 123, z: -456 }, "bin"),
        "r.123.-456.bin"
    );
}

#[test]
fn path_join_inserts_separator() {
    assert_eq!(path_join("/out", "map"), "/out/map");
}

#[test]
fn config_derives_all_paths() {
    let config = Config::new(&args("/world", "/out")).unwrap();
    assert_eq!(config.num_threads, 1);
    assert_eq!(config.region_dir, "/world/region");
    assert_eq!(config.level_dat_path, "/world/level.dat");
    assert_eq!(config.output_dir, "/out");
    assert_eq!(config.processed_dir, "/out/processed");
    assert_eq!(config.entities_dir, "/out/processed/entities");
    assert_eq!(config.entities_path_final, "/out/processed/entities/entities.bin");
    assert_eq!(config.viewer_info_path, "/out/info.json");
    assert_eq!(config.viewer_entities_path, "/out/entities.json");

    let c = TileCoords { x: 2, z: -3 };
    assert_eq!(config.region_path(c), "/world/region/r.2.-3.mca");
    assert_eq!(config.processed_path(c), "/out/processed/r.2.-3.bin");
    assert_eq!(config.entities_dir(1), "/out/processed/entities/1");
    assert_eq!(config.entities_path(1, c), "/out/processed/entities/1/r.2.-3.bin");
    assert_eq!(config.tile_dir(TileKind::Color, 0), "/out/map/0");
    assert_eq!(config.tile_dir(TileKind::Lightmap, 10), "/out/light/10");
    assert_eq!(config.tile_path(TileKind::Color, 0, c), "/out/map/0/r.2.-3.png");
    assert_eq!(
        config.tile_path(TileKind::Lightmap, 3, c),
        "/out/light/3/r.2.-3.png"
    );
}

#[test]
fn config_thread_counts() {
    let mut a = args("/w", "/o");
    a.jobs = Some(4);
    assert_eq!(Config::new(&a).unwrap().num_threads, 4);
    a.jobs = Some(0);
    assert!(Config::new(&a).unwrap().num_threads >= 1);
    a.jobs = None;
    assert_eq!(Config::new(&a).unwrap().num_threads, 1);
}

#[test]
fn malformed_filter_pattern_is_config_error() {
    let mut a = args("/w", "/o");
    a.sign_filter = vec!["[".to_string()];
    match Config::new(&a) {
        Err(e) => assert_eq!(e, ConfigError::BadSignPattern),
        Ok(_) => panic!("malformed pattern must be rejected"),
    }
}

#[test]
fn prefix_with_meta_characters_matches_literally() {
    let rs = compile_sign_patterns(&vec!["C++".to_string()], &Vec::new()).unwrap();
    assert!(keep_text(&rs, "C++ club"));
    assert!(!keep_text(&rs, "Cxx club"));
    // anchored at the start of the text
    assert!(!keep_text(&rs, "the C++ club"));
}

#[test]
fn sign_with_matching_prefix_is_retained() {
    let rs = compile_sign_patterns(&vec!["Wel".to_string()], &Vec::new()).unwrap();
    let entities = vec![
        BlockEntity { x: 1, y: 2, z: 3, text: "Welcome".to_string() },
        BlockEntity { x: 4, y: 5, z: 6, text: "Danger".to_string() },
    ];
    let kept = collect_entities(&entities, &rs);
    assert_eq!(kept.block_entities.len(), 1);
    assert_eq!(kept.block_entities[0].text, "Welcome");
    assert_eq!(kept.block_entities[0].x, 1);
}

#[test]
fn no_patterns_keeps_all_records() {
    let rs = compile_sign_patterns(&Vec::new(), &Vec::new()).unwrap();
    let entities = vec![
        BlockEntity { x: 0, y: 0, z: 0, text: "Welcome".to_string() },
        BlockEntity { x: 0, y: 0, z: 0, text: "Danger".to_string() },
    ];
    let kept = collect_entities(&entities, &rs);
    assert_eq!(kept.block_entities.len(), 2);
}

#[test]
fn free_form_filter_matches() {
    let rs = compile_sign_patterns(&Vec::new(), &vec!["^D.*r$".to_string()]).unwrap();
    assert!(keep_text(&rs, "Danger"));
    assert!(!keep_text(&rs, "Welcome"));
}

#[test]
fn merge_concatenates_in_region_order() {
    let parts = vec![
        ProcessedEntities {
            block_entities: vec![BlockEntity { x: 1, y: 0, z: 0, text: "a".to_string() }],
        },
        ProcessedEntities { block_entities: Vec::new() },
        ProcessedEntities {
            block_entities: vec![
                BlockEntity { x: 2, y: 0, z: 0, text: "b".to_string() },
                BlockEntity { x: 3, y: 0, z: 0, text: "c".to_string() },
            ],
        },
    ];
    let merged = merge_entities(&parts);
    let texts: Vec<&str> = merged.block_entities.iter().map(|e| e.text.as_str()).collect();
    assert_eq!(texts, ["a", "b", "c"]);
}

#[test]
fn chunk_slot_indexing() {
    assert_eq!(chunk_index(ChunkCoords { x: 0, z: 0 }), 0);
    assert_eq!(chunk_index(ChunkCoords { x: 5, z: 5 }), 5 * 32 + 5);
    assert_eq!(chunk_index(ChunkCoords { x: 31, z: 31 }), 1023);
}

#[test]
fn half_floor_rounds_toward_negative_infinity() {
    assert_eq!(half_floor(4), 2);
    assert_eq!(half_floor(3), 1);
    assert_eq!(half_floor(0), 0);
    assert_eq!(half_floor(-1), -1);
    assert_eq!(half_floor(-3), -2);
    assert_eq!(half_floor(-4), -2);
}

#[test]
fn all_four_children_share_their_parent() {
    let parent = TileCoords { x: -7, z: 3 };
    for dz in 0..2 {
        for dx in 0..2 {
            let child = TileCoords { x: 2 * parent.x + dx, z: 2 * parent.z + dz };
            assert_eq!(child.parent(), parent);
        }
    }
}

#[test]
fn tile_coords_order_is_by_z_then_x() {
    let a = TileCoords { x: 5, z: 0 };
    let b = TileCoords { x: -5, z: 1 };
    let c = TileCoords { x: -4, z: 1 };
    assert!(a.le(&b));
    assert!(b.le(&c));
    assert!(!c.le(&b));
    assert!(a.le(&a));
}

#[test]
fn tile_coord_map_tracks_membership() {
    let mut map = TileCoordMap::new();
    let a = TileCoords { x: 1, z: 2 };
    let b = TileCoords { x: -1, z: 2 };
    let c = TileCoords { x: 1, z: 3 };
    assert!(!map.contains(a));
    map.insert(a);
    assert!(map.contains(a));
    assert!(!map.contains(b));
    assert!(!map.contains(c));
    map.insert(b);
    map.insert(c);
    assert!(map.contains(a) && map.contains(b) && map.contains(c));

    let from = TileCoordMap::from_coords(&vec![a, b]);
    assert!(from.contains(a) && from.contains(b) && !from.contains(c));

    let empty = TileCoordMap::default();
    assert!(!empty.contains(a));
}

#[test]
fn tile_coord_map_inner_sets_are_ascending() {
    let mut map = TileCoordMap::new();
    map.insert(TileCoords { x: 3, z: 0 });
    map.insert(TileCoords { x: -2, z: 0 });
    map.insert(TileCoords { x: 7, z: 0 });
    let xs: Vec<i32> = map.0.get(&0).unwrap().iter().copied().collect();
    assert_eq!(xs, [-2, 3, 7]);
}

#[test]
fn cache_validity_needs_version_and_freshness() {
    let versions = current_versions();
    assert!(is_valid(&versions, ArtifactKind::Processed, REGION_FILE_META_VERSION, 100, 100));
    assert!(is_valid(&versions, ArtifactKind::Processed, REGION_FILE_META_VERSION, 100, 200));
    // cache older than its source
    assert!(!is_valid(&versions, ArtifactKind::Processed, REGION_FILE_META_VERSION, 200, 100));
    // stored version tag from another build
    assert!(!is_valid(&versions, ArtifactKind::Processed, REGION_FILE_META_VERSION + 1, 100, 200));
    assert!(is_valid(&versions, ArtifactKind::TileMap, MAP_FILE_META_VERSION, 0, 0));
    assert!(is_valid(&versions, ArtifactKind::TileLightmap, LIGHTMAP_FILE_META_VERSION, 0, 0));
    assert!(is_valid(&versions, ArtifactKind::Mipmap, MIPMAP_FILE_META_VERSION, 0, 0));
    assert!(is_valid(&versions, ArtifactKind::Entities, ENTITIES_FILE_META_VERSION, 0, 0));
}

#[test]
fn version_bump_invalidates_exactly_one_kind() {
    let before = current_versions();
    let mut after = before;
    after.tile_map = before.tile_map + 1;

    let stored_map = before.tile_map;
    let stored_entities = before.entities;
    // the bumped kind's artifact is stale under the new table
    assert!(is_valid(&before, ArtifactKind::TileMap, stored_map, 100, 200));
    assert!(!is_valid(&after, ArtifactKind::TileMap, stored_map, 100, 200));
    // an unrelated kind with a fresh timestamp is left untouched
    assert!(is_valid(&before, ArtifactKind::Entities, stored_entities, 100, 200));
    assert!(is_valid(&after, ArtifactKind::Entities, stored_entities, 100, 200));
}

#[test]
fn stages_run_in_order() {
    let s0 = PipelineStage::Discover;
    let s1 = next_stage(s0, false);
    assert_eq!(s1, PipelineStage::Process);
    let s2 = next_stage(s1, false);
    assert_eq!(s2, PipelineStage::RenderBase);
    let s3 = next_stage(s2, false);
    assert_eq!(s3, PipelineStage::BuildMipmaps(0));
    let s4 = next_stage(s3, true);
    assert_eq!(s4, PipelineStage::BuildMipmaps(1));
    let s5 = next_stage(s4, false);
    assert_eq!(s5, PipelineStage::Finalize);
    let s6 = next_stage(s5, false);
    assert_eq!(s6, PipelineStage::Done);
    assert_eq!(next_stage(s6, true), PipelineStage::Done);
}

#[test]
fn plan_recomputes_exactly_the_unusable_artifacts() {
    let versions = current_versions();
    let coords = TileCoords { x: 0, z: 0 };
    let fresh = |v| Some(CachedArtifact { stored_version: v, cached_mtime: 200 });

    // all caches valid: the whole region is skipped (idempotent re-run)
    let plan = plan_region(
        &versions,
        coords,
        100,
        fresh(versions.processed),
        fresh(versions.tile_map),
        fresh(versions.tile_lightmap),
        fresh(versions.entities),
    );
    assert!(!plan.process && !plan.render_color && !plan.render_lightmap && !plan.collect_entities);
    assert_eq!(plan.coords, coords);

    // a missing tile forces only the tile render
    let plan = plan_region(
        &versions,
        coords,
        100,
        fresh(versions.processed),
        None,
        fresh(versions.tile_lightmap),
        fresh(versions.entities),
    );
    assert!(!plan.process && plan.render_color && !plan.render_lightmap && !plan.collect_entities);

    // a stale stored version forces only that artifact kind
    let stale = Some(CachedArtifact { stored_version: versions.processed + 1, cached_mtime: 200 });
    let plan = plan_region(
        &versions,
        coords,
        100,
        stale,
        fresh(versions.tile_map),
        fresh(versions.tile_lightmap),
        fresh(versions.entities),
    );
    assert!(plan.process && !plan.render_color && !plan.render_lightmap && !plan.collect_entities);

    assert!(!cache_usable(&versions, ArtifactKind::Processed, None, 0));
}

#[test]
fn populated_set_ignores_whether_work_was_skipped() {
    let a = TileCoords { x: 0, z: 0 };
    let b = TileCoords { x: 1, z: 0 };
    let c = TileCoords { x: 2, z: 0 };
    let populated = collect_populated(&vec![(a, true), (b, false), (c, true)]);
    assert_eq!(populated, [a, c]);
}
