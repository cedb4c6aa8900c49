//! Rendering of one region's chunk pixel blocks into a base tile, and of up
//! to four finer tiles into one mipmap tile.

use vstd::prelude::*;
use crate::coords::{ChunkCoords, BLOCKS_PER_CHUNK, CHUNKS_PER_REGION, CHUNKS_PER_REGION_SQUARED};
use crate::raster::{Image, Pixel, avg4, overlay_chunk, spec_avg4, spec_transparent, TILE_HALF, TILE_SIZE};

verus! {

/// The chunk slot covering a tile pixel, in row-major slot order
pub open spec fn spec_slot_of(x: int, z: int) -> int {
    (z / BLOCKS_PER_CHUNK as int) * CHUNKS_PER_REGION + (x / BLOCKS_PER_CHUNK as int)
}

/// The value a base tile holds at a pixel: the covering chunk's pixel where a
/// chunk image is present, the transparent background otherwise
pub open spec fn spec_rendered_at(imgs: Seq<Option<Image>>, x: int, z: int) -> Pixel {
    let slot = imgs[spec_slot_of(x, z)];
    if slot is Some {
        slot->Some_0.spec_pixel(x % (BLOCKS_PER_CHUNK as int), z % (BLOCKS_PER_CHUNK as int))
    } else {
        spec_transparent()
    }
}

/// Composites one region's chunk images into its base tile
///
/// The slice of chunk images is indexed by chunk slot, one optional
/// chunk-sized image per slot. Absent slots leave the canvas transparent. A
/// region without a single present chunk produces no tile.
pub fn render_tile(imgs: &Vec<Option<Image>>) -> (r: Option<Image>)
    requires
        imgs@.len() == CHUNKS_PER_REGION_SQUARED,
        forall|k: int|
            0 <= k < imgs@.len() && imgs@[k] is Some ==> {
                let img = (#[trigger] imgs@[k])->Some_0;
                img.wf() && img.width == BLOCKS_PER_CHUNK && img.height == BLOCKS_PER_CHUNK
            },
    ensures
        r is Some <==> (exists|k: int| 0 <= k < imgs@.len() && imgs@[k] is Some),
        r is Some ==> {
            let tile = r->Some_0;
            &&& tile.wf()
            &&& tile.width == TILE_SIZE
            &&& tile.height == TILE_SIZE
            &&& forall|x: int, z: int|
                0 <= x < TILE_SIZE && 0 <= z < TILE_SIZE ==> tile.spec_pixel(x, z)
                    == spec_rendered_at(imgs@, x, z)
        },
{
    let mut canvas = Image::new(TILE_SIZE, TILE_SIZE);
    let mut any = false;
    let mut cz: usize = 0;
    while cz < CHUNKS_PER_REGION
        invariant
            imgs@.len() == CHUNKS_PER_REGION_SQUARED,
            forall|k: int|
                0 <= k < imgs@.len() && imgs@[k] is Some ==> {
                    let img = (#[trigger] imgs@[k])->Some_0;
                    img.wf() && img.width == BLOCKS_PER_CHUNK && img.height == BLOCKS_PER_CHUNK
                },
            cz <= CHUNKS_PER_REGION,
            canvas.wf(),
            canvas.width == TILE_SIZE,
            canvas.height == TILE_SIZE,
            any == (exists|k: int| 0 <= k < cz * CHUNKS_PER_REGION && imgs@[k] is Some),
            forall|x: int, z: int|
                0 <= x < TILE_SIZE && 0 <= z < TILE_SIZE ==> #[trigger] canvas.spec_pixel(x, z)
                    == (if spec_slot_of(x, z) < cz * CHUNKS_PER_REGION {
                        spec_rendered_at(imgs@, x, z)
                    } else {
                        spec_transparent()
                    }),
        decreases CHUNKS_PER_REGION - cz,
    {
        let mut cx: usize = 0;
        while cx < CHUNKS_PER_REGION
            invariant
                imgs@.len() == CHUNKS_PER_REGION_SQUARED,
                forall|k: int|
                    0 <= k < imgs@.len() && imgs@[k] is Some ==> {
                        let img = (#[trigger] imgs@[k])->Some_0;
                        img.wf() && img.width == BLOCKS_PER_CHUNK && img.height == BLOCKS_PER_CHUNK
                    },
                cz < CHUNKS_PER_REGION,
                cx <= CHUNKS_PER_REGION,
                canvas.wf(),
                canvas.width == TILE_SIZE,
                canvas.height == TILE_SIZE,
                any == (exists|k: int| 0 <= k < cz * CHUNKS_PER_REGION + cx && imgs@[k] is Some),
                forall|x: int, z: int|
                    0 <= x < TILE_SIZE && 0 <= z < TILE_SIZE ==> #[trigger] canvas.spec_pixel(x, z)
                        == (if spec_slot_of(x, z) < cz * CHUNKS_PER_REGION + cx {
                            spec_rendered_at(imgs@, x, z)
                        } else {
                            spec_transparent()
                        }),
            decreases CHUNKS_PER_REGION - cx,
        {
            let slot = cz * CHUNKS_PER_REGION + cx;
            let ghost canvas_before = canvas;
            match &imgs[slot] {
                Some(chunk_img) => {
                    overlay_chunk(&mut canvas, chunk_img, ChunkCoords { x: cx as u8, z: cz as u8 });
                    any = true;
                },
                None => {},
            }
            proof {
                assert forall|x: int, z: int| 0 <= x < TILE_SIZE && 0 <= z < TILE_SIZE implies #[trigger] canvas.spec_pixel(x, z)
                    == (if spec_slot_of(x, z) < cz * CHUNKS_PER_REGION + cx + 1 {
                        spec_rendered_at(imgs@, x, z)
                    } else {
                        spec_transparent()
                    }) by {
                    let bc = BLOCKS_PER_CHUNK as int;
                    let s = spec_slot_of(x, z);
                    if s == slot {
                        assert(x / bc == cx && z / bc == cz) by {
                            assert(0 <= x / bc < CHUNKS_PER_REGION);
                            assert(0 <= z / bc < CHUNKS_PER_REGION);
                        }
                        assert(x == cx * bc + (x % bc) && z == cz * bc + (z % bc));
                        if imgs@[slot as int] is Some {
                            let ci = imgs@[slot as int]->Some_0;
                            assert(canvas.spec_pixel(cx * bc + (x % bc), cz * bc + (z % bc))
                                == ci.spec_pixel(x % bc, z % bc));
                        } else {
                            assert(canvas.spec_pixel(x, z) == canvas_before.spec_pixel(x, z));
                        }
                    } else {
                        if imgs@[slot as int] is Some {
                            if x / bc == cx && z / bc == cz {
                                assert(s == slot);
                            }
                            assert(!(cx * bc <= x < cx * bc + bc && cz * bc <= z < cz * bc + bc))
                                by {
                                if cx * bc <= x < cx * bc + bc && cz * bc <= z < cz * bc + bc {
                                    assert(x / bc == cx && z / bc == cz);
                                }
                            }
                            assert(canvas.spec_pixel(x, z) == canvas_before.spec_pixel(x, z));
                        }
                    }
                }
            }
            cx += 1;
        }
        proof {
            assert(cz * CHUNKS_PER_REGION + CHUNKS_PER_REGION == (cz + 1) * CHUNKS_PER_REGION);
        }
        cz += 1;
    }
    if any {
        Some(canvas)
    } else {
        None
    }
}

/// The quadrant slot covering a mipmap tile pixel
pub open spec fn spec_quadrant_of(x: int, z: int) -> int {
    (z / TILE_HALF as int) * 2 + (x / TILE_HALF as int)
}

/// The value a mipmap tile holds at a pixel: the channel-wise mean of the
/// four covering pixels of the child tile of its quadrant, the transparent
/// background where that child does not exist
pub open spec fn spec_downsampled_at(children: Seq<Option<Image>>, x: int, z: int) -> Pixel {
    let slot = children[spec_quadrant_of(x, z)];
    if slot is Some {
        let child = slot->Some_0;
        spec_ds_pixel(child, x % (TILE_HALF as int), z % (TILE_HALF as int))
    } else {
        spec_transparent()
    }
}

/// The factor-two downsample of a child tile at one target position
pub open spec fn spec_ds_pixel(child: Image, ix: int, iz: int) -> Pixel {
    spec_avg4(
        child.spec_pixel(2 * ix, 2 * iz),
        child.spec_pixel(2 * ix + 1, 2 * iz),
        child.spec_pixel(2 * ix, 2 * iz + 1),
        child.spec_pixel(2 * ix + 1, 2 * iz + 1),
    )
}

/// Downsamples one child tile by two and writes it into its quadrant
///
/// Every pixel outside the quadrant keeps its value.
fn overlay_downsampled(canvas: &mut Image, child: &Image, qx: usize, qz: usize)
    requires
        old(canvas).wf(),
        old(canvas).width == TILE_SIZE,
        old(canvas).height == TILE_SIZE,
        child.wf(),
        child.width == TILE_SIZE,
        child.height == TILE_SIZE,
        qx < 2,
        qz < 2,
    ensures
        final (canvas).wf(),
        final (canvas).width == TILE_SIZE,
        final (canvas).height == TILE_SIZE,
        forall|ix: int, iz: int|
            0 <= ix < TILE_HALF && 0 <= iz < TILE_HALF ==> final (canvas).spec_pixel(
                qx * TILE_HALF + ix,
                qz * TILE_HALF + iz,
            ) == #[trigger] spec_ds_pixel(*child, ix, iz),
        forall|x: int, z: int|
            0 <= x < TILE_SIZE && 0 <= z < TILE_SIZE && !(qx * TILE_HALF <= x < qx * TILE_HALF
                + TILE_HALF && qz * TILE_HALF <= z < qz * TILE_HALF + TILE_HALF) ==> final (
            canvas).spec_pixel(x, z) == old(canvas).spec_pixel(x, z),
{
    let bx = qx * TILE_HALF;
    let bz = qz * TILE_HALF;
    let mut iz: usize = 0;
    while iz < TILE_HALF
        invariant
            canvas.wf(),
            canvas.width == TILE_SIZE,
            canvas.height == TILE_SIZE,
            child.wf(),
            child.width == TILE_SIZE,
            child.height == TILE_SIZE,
            qx < 2,
            qz < 2,
            bx == qx * TILE_HALF,
            bz == qz * TILE_HALF,
            iz <= TILE_HALF,
            forall|ix2: int, iz2: int|
                0 <= ix2 < TILE_HALF && 0 <= iz2 < iz ==> canvas.spec_pixel(bx + ix2, bz + iz2)
                    == #[trigger] spec_ds_pixel(*child, ix2, iz2),
            forall|x: int, z: int|
                0 <= x < TILE_SIZE && 0 <= z < TILE_SIZE && !(bx <= x < bx + TILE_HALF && bz <= z
                    < bz + iz) ==> canvas.spec_pixel(x, z) == old(canvas).spec_pixel(x, z),
        decreases TILE_HALF - iz,
    {
        let mut ix: usize = 0;
        while ix < TILE_HALF
            invariant
                canvas.wf(),
                canvas.width == TILE_SIZE,
                canvas.height == TILE_SIZE,
                child.wf(),
                child.width == TILE_SIZE,
                child.height == TILE_SIZE,
                qx < 2,
                qz < 2,
                bx == qx * TILE_HALF,
                bz == qz * TILE_HALF,
                iz < TILE_HALF,
                ix <= TILE_HALF,
                forall|ix2: int, iz2: int|
                    0 <= ix2 < TILE_HALF && 0 <= iz2 < iz ==> canvas.spec_pixel(bx + ix2, bz + iz2)
                        == #[trigger] spec_ds_pixel(*child, ix2, iz2),
                forall|ix2: int|
                    0 <= ix2 < ix ==> canvas.spec_pixel(bx + ix2, bz + iz) == #[trigger] spec_ds_pixel(*child, ix2, iz as int),
                forall|x: int, z: int|
                    0 <= x < TILE_SIZE && 0 <= z < TILE_SIZE && !(bx <= x < bx + TILE_HALF && bz
                        <= z < bz + iz + 1) ==> canvas.spec_pixel(x, z) == old(canvas).spec_pixel(
                        x,
                        z,
                    ),
                forall|x: int, z: int|
                    0 <= x < TILE_SIZE && z == bz + iz && !(bx <= x < bx + ix)
                        ==> canvas.spec_pixel(x, z) == old(canvas).spec_pixel(x, z),
            decreases TILE_HALF - ix,
        {
            let p00 = child.get_pixel(2 * ix, 2 * iz);
            let p10 = child.get_pixel(2 * ix + 1, 2 * iz);
            let p01 = child.get_pixel(2 * ix, 2 * iz + 1);
            let p11 = child.get_pixel(2 * ix + 1, 2 * iz + 1);
            let p = avg4(p00, p10, p01, p11);
            canvas.set_pixel(bx + ix, bz + iz, p);
            ix += 1;
        }
        iz += 1;
    }
}

/// Builds one mipmap tile from the up-to-four child tiles of its coordinate
///
/// The slice holds the four child slots in row-major quadrant order. Each
/// present child is downsampled by two and laid into its quadrant; missing
/// children leave their quadrant transparent. A coordinate without a single
/// existing child produces no tile.
pub fn build_parent_tile(children: &Vec<Option<Image>>) -> (r: Option<Image>)
    requires
        children@.len() == 4,
        forall|k: int|
            0 <= k < children@.len() && children@[k] is Some ==> {
                let img = (#[trigger] children@[k])->Some_0;
                img.wf() && img.width == TILE_SIZE && img.height == TILE_SIZE
            },
    ensures
        r is Some <==> (exists|k: int| 0 <= k < children@.len() && children@[k] is Some),
        r is Some ==> {
            let tile = r->Some_0;
            &&& tile.wf()
            &&& tile.width == TILE_SIZE
            &&& tile.height == TILE_SIZE
            &&& forall|x: int, z: int|
                0 <= x < TILE_SIZE && 0 <= z < TILE_SIZE ==> tile.spec_pixel(x, z)
                    == spec_downsampled_at(children@, x, z)
        },
{
    let mut canvas = Image::new(TILE_SIZE, TILE_SIZE);
    let mut any = false;
    let mut q: usize = 0;
    while q < 4
        invariant
            children@.len() == 4,
            forall|k: int|
                0 <= k < children@.len() && children@[k] is Some ==> {
                    let img = (#[trigger] children@[k])->Some_0;
                    img.wf() && img.width == TILE_SIZE && img.height == TILE_SIZE
                },
            q <= 4,
            canvas.wf(),
            canvas.width == TILE_SIZE,
            canvas.height == TILE_SIZE,
            any == (exists|k: int| 0 <= k < q && children@[k] is Some),
            forall|x: int, z: int|
                0 <= x < TILE_SIZE && 0 <= z < TILE_SIZE ==> #[trigger] canvas.spec_pixel(x, z)
                    == (if spec_quadrant_of(x, z) < q {
                        spec_downsampled_at(children@, x, z)
                    } else {
                        spec_transparent()
                    }),
        decreases 4 - q,
    {
        let qx = q % 2;
        let qz = q / 2;
        let ghost canvas_before = canvas;
        match &children[q] {
            Some(child) => {
                overlay_downsampled(&mut canvas, child, qx, qz);
                any = true;
            },
            None => {},
        }
        proof {
            let th = TILE_HALF as int;
            assert forall|x: int, z: int| 0 <= x < TILE_SIZE && 0 <= z < TILE_SIZE implies #[trigger] canvas.spec_pixel(x, z)
                == (if spec_quadrant_of(x, z) < q + 1 {
                    spec_downsampled_at(children@, x, z)
                } else {
                    spec_transparent()
                }) by {
                let s = spec_quadrant_of(x, z);
                if s == q {
                    assert(x / th == qx && z / th == qz) by {
                        assert(0 <= x / th < 2);
                        assert(0 <= z / th < 2);
                    }
                    assert(x == qx * th + (x % th) && z == qz * th + (z % th));
                    if children@[q as int] is Some {
                        let child = children@[q as int]->Some_0;
                        assert(canvas.spec_pixel(qx * th + (x % th), qz * th + (z % th))
                            == spec_ds_pixel(child, x % th, z % th));
                    } else {
                        assert(canvas.spec_pixel(x, z) == canvas_before.spec_pixel(x, z));
                    }
                } else {
                    if children@[q as int] is Some {
                        assert(!(qx * th <= x < qx * th + th && qz * th <= z < qz * th + th)) by {
                            if qx * th <= x < qx * th + th && qz * th <= z < qz * th + th {
                                assert(x / th == qx && z / th == qz);
                                assert(s == q);
                            }
                        }
                        assert(canvas.spec_pixel(x, z) == canvas_before.spec_pixel(x, z));
                    }
                }
            }
        }
        q += 1;
    }
    if any {
        Some(canvas)
    } else {
        None
    }
}

} // verus!
