use minedmap_core::coords::{chunk_index, ChunkCoords, TileCoords};
use minedmap_core::mipmap::{level_coord_map, parents_of};
use minedmap_core::pipeline::collect_populated;
use minedmap_core::raster::{avg4, overlay_chunk, transparent, Image, Pixel};
use minedmap_core::region::{
    biome_list_get, biome_list_len, process_region, DecodedChunk, DecodedSlot,
};
use minedmap_core::render::{build_parent_tile, render_tile};

fn uniform_image(width: usize, height: usize, p: Pixel) -> Image {
    let mut img = Image::new(width, height);
    for z in 0..height {
        for x in 0..width {
            img.set_pixel(x, z, p);
        }
    }
    img
}

fn pixel(r: u8, g: u8, b: u8, a: u8) -> Pixel {
    Pixel { r, g, b, a }
}

fn empty_slots() -> Vec<DecodedSlot> {
    let mut slots = Vec::new();
    for _ in 0..1024 {
        slots.push(DecodedSlot::Absent);
    }
    slots
}

fn uniform_chunk(block: u16, biome: u32, depth: u16) -> DecodedChunk {
    DecodedChunk {
        blocks: vec![block; 256],
        biomes: vec![biome; 256],
        depths: vec![depth; 256],
    }
}

#[test]
fn present_slots_make_processed_chunks() {
    let mut slots = empty_slots();
    slots[chunk_index(ChunkCoords { x: 5, z: 5 })] = DecodedSlot::Present(uniform_chunk(7, 9, 64));
    slots[chunk_index(ChunkCoords { x: 0, z: 1 })] = DecodedSlot::Corrupt;
    let region = process_region(&slots);
    assert_eq!(region.chunks.len(), 1024);
    for i in 0..1024 {
        let expect_some = i == chunk_index(ChunkCoords { x: 5, z: 5 });
        assert_eq!(region.chunks[i].is_some(), expect_some);
    }
    let chunk = region.chunks[chunk_index(ChunkCoords { x: 5, z: 5 })]
        .as_ref()
        .unwrap();
    assert_eq!(chunk.blocks, vec![7u16; 256]);
    assert_eq!(chunk.depths, vec![64u16; 256]);
}

#[test]
fn biome_indices_decode_to_original_biomes() {
    let mut slots = empty_slots();
    let mut biomes = vec![0u32; 256];
    for j in 0..256 {
        // three distinct biomes, interleaved
        biomes[j] = match j % 3 {
            0 => 100,
            1 => 200,
            _ => 100, // repeats must not grow the list
        };
    }
    let chunk = DecodedChunk { blocks: vec![1; 256], biomes: biomes.clone(), depths: vec![0; 256] };
    slots[chunk_index(ChunkCoords { x: 3, z: 4 })] = DecodedSlot::Present(chunk);
    slots[chunk_index(ChunkCoords { x: 4, z: 4 })] = DecodedSlot::Present(uniform_chunk(1, 200, 0));

    let region = process_region(&slots);
    // insertion-ordered and deduplicated: 100 first, then 200
    assert_eq!(biome_list_len(&region.biome_list), 2);
    assert_eq!(biome_list_get(&region.biome_list, 0), Some(100));
    assert_eq!(biome_list_get(&region.biome_list, 1), Some(200));
    assert_eq!(biome_list_get(&region.biome_list, 2), None);

    let processed = region.chunks[chunk_index(ChunkCoords { x: 3, z: 4 })]
        .as_ref()
        .unwrap();
    for j in 0..256 {
        let idx = processed.biomes[j] as usize;
        assert_eq!(biome_list_get(&region.biome_list, idx), Some(biomes[j]));
    }
}

#[test]
fn overlay_replaces_exactly_the_chunk_block() {
    let mut canvas = Image::new(512, 512);
    let red = pixel(200, 10, 10, 255);
    let chunk = uniform_image(16, 16, red);
    overlay_chunk(&mut canvas, &chunk, ChunkCoords { x: 5, z: 5 });
    assert_eq!(canvas.get_pixel(80, 80), red);
    assert_eq!(canvas.get_pixel(95, 95), red);
    assert_eq!(canvas.get_pixel(79, 80), transparent());
    assert_eq!(canvas.get_pixel(80, 96), transparent());
    assert_eq!(canvas.get_pixel(0, 0), transparent());
}

#[test]
fn single_chunk_region_renders_one_colored_block() {
    let red = pixel(200, 10, 10, 255);
    let mut imgs: Vec<Option<Image>> = Vec::new();
    for _ in 0..1024 {
        imgs.push(None);
    }
    imgs[chunk_index(ChunkCoords { x: 5, z: 5 })] = Some(uniform_image(16, 16, red));
    let tile = render_tile(&imgs).unwrap();
    assert_eq!(tile.width, 512);
    assert_eq!(tile.height, 512);
    for z in 0..512 {
        for x in 0..512 {
            let inside = (80..96).contains(&x) && (80..96).contains(&z);
            let expected = if inside { red } else { transparent() };
            assert_eq!(tile.get_pixel(x, z), expected);
        }
    }

    // the tile's coordinate is the sole entry of the level-0 coordinate map
    let region_coords = TileCoords { x: 0, z: 0 };
    let populated = collect_populated(&vec![(region_coords, true)]);
    assert_eq!(populated, [region_coords]);
    let map = level_coord_map(&populated);
    assert!(map.contains(region_coords));
    assert!(!map.contains(TileCoords { x: 1, z: 0 }));

    // its mipmap parent at the next level is (0, 0) and is also populated
    let parents = parents_of(&populated);
    assert_eq!(parents, [TileCoords { x: 0, z: 0 }]);
}

#[test]
fn all_absent_region_renders_no_tile() {
    let mut imgs: Vec<Option<Image>> = Vec::new();
    for _ in 0..1024 {
        imgs.push(None);
    }
    assert!(render_tile(&imgs).is_none());
}

#[test]
fn avg4_is_channel_wise_mean() {
    let p = avg4(
        pixel(0, 4, 8, 255),
        pixel(2, 4, 8, 255),
        pixel(4, 4, 9, 255),
        pixel(6, 4, 10, 255),
    );
    assert_eq!(p, pixel(3, 4, 8, 255));
}

#[test]
fn parent_tile_downsamples_each_quadrant() {
    let bright = pixel(40, 80, 120, 200);
    let mut children: Vec<Option<Image>> = vec![None, None, None, None];
    // child in quadrant (1, 1)
    children[3] = Some(uniform_image(512, 512, bright));
    let parent = build_parent_tile(&children).unwrap();
    assert_eq!(parent.get_pixel(256, 256), bright);
    assert_eq!(parent.get_pixel(511, 511), bright);
    assert_eq!(parent.get_pixel(255, 256), transparent());
    assert_eq!(parent.get_pixel(0, 0), transparent());
}

#[test]
fn parent_tile_averages_two_by_two_blocks() {
    let mut child = Image::new(512, 512);
    child.set_pixel(0, 0, pixel(0, 0, 0, 255));
    child.set_pixel(1, 0, pixel(2, 4, 0, 255));
    child.set_pixel(0, 1, pixel(4, 4, 0, 255));
    child.set_pixel(1, 1, pixel(6, 8, 0, 255));
    let mut children: Vec<Option<Image>> = vec![None, None, None, None];
    children[0] = Some(child);
    let parent = build_parent_tile(&children).unwrap();
    assert_eq!(parent.get_pixel(0, 0), pixel(3, 4, 0, 255));
    // a fully transparent source block stays transparent
    assert_eq!(parent.get_pixel(1, 0), transparent());
}

#[test]
fn no_children_ends_the_recursion() {
    let children: Vec<Option<Image>> = vec![None, None, None, None];
    assert!(build_parent_tile(&children).is_none());
    let no_coords: Vec<TileCoords> = Vec::new();
    assert_eq!(parents_of(&no_coords), []);
}

#[test]
fn parents_are_grouped_and_deduplicated() {
    let coords = vec![
        TileCoords { x: 0, z: 0 },
        TileCoords { x: 1, z: 1 },
        TileCoords { x: 2, z: 0 },
        TileCoords { x: -1, z: -1 },
    ];
    let parents = parents_of(&coords);
    assert_eq!(
        parents,
        [
            TileCoords { x: 0, z: 0 },
            TileCoords { x: 1, z: 0 },
            TileCoords { x: -1, z: -1 },
        ]
    );
}
