//! Tile images and the compositing that builds them: opaque overlay of
//! chunk-sized pixel blocks at the base level, and factor-two downsampling
//! for the mipmap levels.

use vstd::prelude::*;
use crate::coords::{ChunkCoords, BLOCKS_PER_CHUNK};

verus! {

/// Edge length of a tile in pixels: one region at one pixel per block
pub const TILE_SIZE: usize = 512;

/// Half of a tile's edge length: the size of one mipmap quadrant
pub const TILE_HALF: usize = 256;

/// One RGBA pixel
#[derive(Clone, Copy, PartialEq, Eq, Structural, Debug)]
pub struct Pixel {
    /// Red channel
    pub r: u8,
    /// Green channel
    pub g: u8,
    /// Blue channel
    pub b: u8,
    /// Alpha channel
    pub a: u8,
}

/// The fully transparent background pixel
pub open spec fn spec_transparent() -> Pixel {
    (Pixel { r: 0, g: 0, b: 0, a: 0 })
}

/// Returns the fully transparent background pixel
pub fn transparent() -> (p: Pixel)
    ensures
        p == spec_transparent(),
{
    Pixel { r: 0, g: 0, b: 0, a: 0 }
}

/// The channel-wise mean of four pixels, used for factor-two downsampling
pub open spec fn spec_avg4(a: Pixel, b: Pixel, c: Pixel, d: Pixel) -> Pixel {
    (Pixel {
        r: ((a.r + b.r + c.r + d.r) / 4) as u8,
        g: ((a.g + b.g + c.g + d.g) / 4) as u8,
        b: ((a.b + b.b + c.b + d.b) / 4) as u8,
        a: ((a.a + b.a + c.a + d.a) / 4) as u8,
    })
}

/// Computes the channel-wise mean of four pixels
pub fn avg4(a: Pixel, b: Pixel, c: Pixel, d: Pixel) -> (p: Pixel)
    ensures
        p == spec_avg4(a, b, c, d),
{
    Pixel {
        r: ((a.r as u16 + b.r as u16 + c.r as u16 + d.r as u16) / 4) as u8,
        g: ((a.g as u16 + b.g as u16 + c.g as u16 + d.g as u16) / 4) as u8,
        b: ((a.b as u16 + b.b as u16 + c.b as u16 + d.b as u16) / 4) as u8,
        a: ((a.a as u16 + b.a as u16 + c.a as u16 + d.a as u16) / 4) as u8,
    }
}

/// A rectangular raster image in row-major order
#[derive(Clone)]
pub struct Image {
    /// Width in pixels
    pub width: usize,
    /// Height in pixels
    pub height: usize,
    /// Pixel data, row by row
    pub pixels: Vec<Pixel>,
}

impl Image {
    /// The pixel buffer covers exactly the image's area
    pub open spec fn wf(self) -> bool {
        self.pixels@.len() == self.width * self.height
    }

    /// The pixel at column `x` of row `z`
    pub open spec fn spec_pixel(self, x: int, z: int) -> Pixel {
        self.pixels@[z * self.width + x]
    }

    /// Creates a fully transparent image
    pub fn new(width: usize, height: usize) -> (r: Image)
        requires
            width * height < 0x10000000,
        ensures
            r.wf(),
            r.width == width,
            r.height == height,
            forall|x: int, z: int|
                0 <= x < width && 0 <= z < height ==> r.spec_pixel(x, z) == spec_transparent(),
    {
        let area = width * height;
        let mut pixels: Vec<Pixel> = Vec::new();
        let mut i: usize = 0;
        while i < area
            invariant
                area == width * height,
                i <= area,
                pixels@.len() == i,
                forall|k: int| 0 <= k < i ==> pixels@[k] == spec_transparent(),
            decreases area - i,
        {
            pixels.push(transparent());
            i += 1;
        }
        let r = Image { width, height, pixels };
        proof {
            assert forall|x: int, z: int| 0 <= x < width && 0 <= z < height implies r.spec_pixel(
                x,
                z,
            ) == spec_transparent() by {
                lemma_row_major_bound(width as int, height as int, x, z);
            }
        }
        r
    }

    /// Reads the pixel at column `x` of row `z`
    pub fn get_pixel(&self, x: usize, z: usize) -> (p: Pixel)
        requires
            self.wf(),
            x < self.width,
            z < self.height,
        ensures
            p == self.spec_pixel(x as int, z as int),
    {
        let _buffer_len: usize = self.pixels.len();
        proof {
            lemma_row_major_bound(self.width as int, self.height as int, x as int, z as int);
        }
        self.pixels[z * self.width + x]
    }

    /// Writes the pixel at column `x` of row `z`; every other pixel keeps its value
    pub fn set_pixel(&mut self, x: usize, z: usize, p: Pixel)
        requires
            old(self).wf(),
            x < old(self).width,
            z < old(self).height,
        ensures
            final (self).wf(),
            final (self).width == old(self).width,
            final (self).height == old(self).height,
            final (self).spec_pixel(x as int, z as int) == p,
            forall|x2: int, z2: int|
                0 <= x2 < old(self).width && 0 <= z2 < old(self).height && !(x2 == x && z2 == z)
                    ==> final (self).spec_pixel(x2, z2) == old(self).spec_pixel(x2, z2),
    {
        let _buffer_len: usize = self.pixels.len();
        proof {
            lemma_row_major_bound(self.width as int, self.height as int, x as int, z as int);
        }
        let i = z * self.width + x;
        self.pixels.set(i, p);
        proof {
            assert forall|x2: int, z2: int|
                0 <= x2 < self.width && 0 <= z2 < self.height && !(x2 == x && z2 == z) implies final
                (self).spec_pixel(x2, z2) == old(self).spec_pixel(x2, z2) by {
                lemma_row_major_bound(self.width as int, self.height as int, x2, z2);
                lemma_row_major_injective(self.width as int, x as int, z as int, x2, z2);
            }
        }
    }
}

/// A row-major index lies inside the pixel buffer
proof fn lemma_row_major_bound(width: int, height: int, x: int, z: int)
    requires
        0 <= x < width,
        0 <= z < height,
    ensures
        0 <= z * width + x < width * height,
{
    assert(0 <= z * width + x < width * height) by (nonlinear_arith)
        requires
            0 <= x < width,
            0 <= z < height,
    ;
}

/// Distinct positions have distinct row-major indices
proof fn lemma_row_major_injective(width: int, x1: int, z1: int, x2: int, z2: int)
    requires
        0 <= x1 < width,
        0 <= x2 < width,
        0 <= z1,
        0 <= z2,
        !(x1 == x2 && z1 == z2),
    ensures
        z1 * width + x1 != z2 * width + x2,
{
    assert(z1 * width + x1 != z2 * width + x2) by (nonlinear_arith)
        requires
            0 <= x1 < width,
            0 <= x2 < width,
            0 <= z1,
            0 <= z2,
            !(x1 == x2 && z1 == z2),
    ;
}

/// Copies a chunk image into a region tile
///
/// The chunk's pixel block fully replaces the destination rectangle at the
/// chunk's offset; every pixel outside that rectangle keeps its value.
pub fn overlay_chunk(image: &mut Image, chunk: &Image, coords: ChunkCoords)
    requires
        old(image).wf(),
        old(image).width == TILE_SIZE,
        old(image).height == TILE_SIZE,
        chunk.wf(),
        chunk.width == BLOCKS_PER_CHUNK,
        chunk.height == BLOCKS_PER_CHUNK,
        coords.wf(),
    ensures
        final (image).wf(),
        final (image).width == TILE_SIZE,
        final (image).height == TILE_SIZE,
        forall|ix: int, iz: int|
            0 <= ix < BLOCKS_PER_CHUNK && 0 <= iz < BLOCKS_PER_CHUNK ==> final (image).spec_pixel(
                coords.x * BLOCKS_PER_CHUNK + ix,
                coords.z * BLOCKS_PER_CHUNK + iz,
            ) == chunk.spec_pixel(ix, iz),
        forall|x: int, z: int|
            0 <= x < TILE_SIZE && 0 <= z < TILE_SIZE && !(coords.x * BLOCKS_PER_CHUNK <= x
                < coords.x * BLOCKS_PER_CHUNK + BLOCKS_PER_CHUNK && coords.z * BLOCKS_PER_CHUNK <= z
                < coords.z * BLOCKS_PER_CHUNK + BLOCKS_PER_CHUNK) ==> final (image).spec_pixel(x, z)
                == old(image).spec_pixel(x, z),
{
    let bx = coords.x as usize * BLOCKS_PER_CHUNK;
    let bz = coords.z as usize * BLOCKS_PER_CHUNK;
    let mut iz: usize = 0;
    while iz < BLOCKS_PER_CHUNK
        invariant
            image.wf(),
            image.width == TILE_SIZE,
            image.height == TILE_SIZE,
            chunk.wf(),
            chunk.width == BLOCKS_PER_CHUNK,
            chunk.height == BLOCKS_PER_CHUNK,
            coords.wf(),
            bx == coords.x * BLOCKS_PER_CHUNK,
            bz == coords.z * BLOCKS_PER_CHUNK,
            iz <= BLOCKS_PER_CHUNK,
            forall|ix2: int, iz2: int|
                0 <= ix2 < BLOCKS_PER_CHUNK && 0 <= iz2 < iz ==> image.spec_pixel(
                    bx + ix2,
                    bz + iz2,
                ) == chunk.spec_pixel(ix2, iz2),
            forall|x: int, z: int|
                0 <= x < TILE_SIZE && 0 <= z < TILE_SIZE && !(bx <= x < bx + BLOCKS_PER_CHUNK && bz
                    <= z < bz + iz) ==> image.spec_pixel(x, z) == old(image).spec_pixel(x, z),
        decreases BLOCKS_PER_CHUNK - iz,
    {
        let mut ix: usize = 0;
        while ix < BLOCKS_PER_CHUNK
            invariant
                image.wf(),
                image.width == TILE_SIZE,
                image.height == TILE_SIZE,
                chunk.wf(),
                chunk.width == BLOCKS_PER_CHUNK,
                chunk.height == BLOCKS_PER_CHUNK,
                coords.wf(),
                bx == coords.x * BLOCKS_PER_CHUNK,
                bz == coords.z * BLOCKS_PER_CHUNK,
                iz < BLOCKS_PER_CHUNK,
                ix <= BLOCKS_PER_CHUNK,
                forall|ix2: int, iz2: int|
                    0 <= ix2 < BLOCKS_PER_CHUNK && 0 <= iz2 < iz ==> image.spec_pixel(
                        bx + ix2,
                        bz + iz2,
                    ) == chunk.spec_pixel(ix2, iz2),
                forall|ix2: int| 0 <= ix2 < ix ==> image.spec_pixel(bx + ix2, bz + iz) == chunk.spec_pixel(ix2, iz as int),
                forall|x: int, z: int|
                    0 <= x < TILE_SIZE && 0 <= z < TILE_SIZE && !(bx <= x < bx + BLOCKS_PER_CHUNK
                        && bz <= z < bz + iz + 1) ==> image.spec_pixel(x, z) == old(
                        image,
                    ).spec_pixel(x, z),
                forall|x: int, z: int|
                    0 <= x < TILE_SIZE && z == bz + iz && !(bx <= x < bx + ix) ==> image.spec_pixel(
                        x,
                        z,
                    ) == old(image).spec_pixel(x, z),
            decreases BLOCKS_PER_CHUNK - ix,
        {
            let p = chunk.get_pixel(ix, iz);
            image.set_pixel(bx + ix, bz + iz, p);
            ix += 1;
        }
        iz += 1;
    }
}

} // verus!
