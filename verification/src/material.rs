//! Materials: decoding an image, splitting it into upload-sized tiles, and
//! the layout of the texture upload.
//!
//! Decoding, pixel-format conversion and pixel copying are the image
//! library's work and are taken on trust with the contracts written at each
//! wrapper; which tiles are cut, where each tile starts and how large it is
//! are this module's own logic and are verified against the grid of
//! `crate::tiling`. Decoding is modelled as a pure function of the input
//! bytes, named by `decoded_dims` and `decoded_pixels`, so the tiles and
//! the material are pinned to the bytes they were decoded from.

use vstd::prelude::*;
use crate::tiling::{
    grid_count,
    grid_rect,
    lemma_grid_covers,
    lemma_grid_index,
    lemma_grid_unique,
    lemma_origin_in_range,
    span,
    tiles_across,
};

verus! {

/// Width and height, in pixels, of a full texture tile.
pub const TILE_SIZE: u32 = 1024;

#[verifier::external_type_specification]
#[verifier::external_body]
pub struct ExDynamicImage(image::DynamicImage);

#[verifier::external_type_specification]
#[verifier::external_body]
pub struct ExImageError(image::ImageError);

/// An 8-bit RGBA image of the image library, held as an opaque texture
/// value. Every value of this type is produced by the wrappers below, which
/// only hand out buffers whose backing store is exactly four bytes per
/// pixel; its width, height and pixels are reached through those wrappers.
#[verifier::external_body]
pub struct RgbaTexture {
    inner: image::RgbaImage,
}

/// Whether decoding the given bytes as an image succeeds.
///
/// This and the two names below model decoding as a pure function of the
/// bytes. That holds as long as the process registers no format or decoding
/// hooks with the image library's global hook registry: this crate and its
/// shell register none.
pub uninterp spec fn spec_decode_ok(bytes: Seq<u8>) -> bool;

/// The width and height of the image decoded from the given bytes, where
/// decoding succeeds.
pub uninterp spec fn decoded_dims(bytes: Seq<u8>) -> (u32, u32);

/// The pixels of the image decoded from the given bytes, rendered as 8-bit
/// RGBA, where decoding succeeds.
pub uninterp spec fn decoded_pixels(bytes: Seq<u8>) -> Map<(int, int), (u8, u8, u8, u8)>;

/// The width and height of a decoded image.
pub uninterp spec fn dynamic_dims(img: image::DynamicImage) -> (u32, u32);

/// The pixels of a decoded image, rendered as 8-bit RGBA; a function of the
/// image value alone.
pub uninterp spec fn dynamic_rgba_pixels(img: image::DynamicImage) -> Map<
    (int, int),
    (u8, u8, u8, u8),
>;

/// The width and height of an RGBA texture.
pub uninterp spec fn rgba_dims(img: RgbaTexture) -> (u32, u32);

/// The pixels of an RGBA texture, by (x, y) position, as the four channel
/// values of each pixel, in RGBA order.
pub uninterp spec fn rgba_pixels(img: RgbaTexture) -> Map<(int, int), (u8, u8, u8, u8)>;

/// Relies on image::load_from_memory. With no format or decoding hooks
/// registered with the image library (this crate and its shell register
/// none), decoding is a pure function of the buffer's bytes: whether it
/// succeeds, the decoded image's dimensions, and its pixels.
#[verifier::external_body]
fn load_image(bytes: &[u8]) -> (r: Result<image::DynamicImage, image::ImageError>)
    ensures
        r is Ok <==> spec_decode_ok(bytes@),
        r is Ok ==> dynamic_dims(r.unwrap()) == decoded_dims(bytes@),
        r is Ok ==> dynamic_rgba_pixels(r.unwrap()) == decoded_pixels(bytes@),
{
    image::load_from_memory(bytes)
}

/// Relies on image::DynamicImage::to_rgba8: it keeps the image's dimensions
/// and renders its pixels as 8-bit RGBA; the result is a function of the
/// image value alone.
#[verifier::external_body]
fn convert_to_rgba8(img: &image::DynamicImage) -> (r: RgbaTexture)
    ensures
        rgba_dims(r) == dynamic_dims(*img),
        rgba_pixels(r) == dynamic_rgba_pixels(*img),
{
    RgbaTexture { inner: img.to_rgba8() }
}

/// Relies on image::imageops::crop_imm and image::SubImage::to_image: an
/// in-bounds crop copies exactly the requested sub-rectangle of the source,
/// pixel by pixel.
#[verifier::external_body]
fn crop_rgba(img: &RgbaTexture, x: u32, y: u32, width: u32, height: u32) -> (r: RgbaTexture)
    requires
        x + width <= rgba_dims(*img).0,
        y + height <= rgba_dims(*img).1,
    ensures
        rgba_dims(r) == (width, height),
        forall|px: int, py: int|
            0 <= px < width && 0 <= py < height ==> #[trigger] rgba_pixels(r)[(px, py)]
                == rgba_pixels(*img)[(x + px, y + py)],
{
    RgbaTexture { inner: image::imageops::crop_imm(&img.inner, x, y, width, height).to_image() }
}

impl RgbaTexture {
    /// Relies on image::ImageBuffer::dimensions: it returns the buffer's
    /// width and height.
    #[verifier::external_body]
    pub fn dimensions(&self) -> (r: (u32, u32))
        ensures
            r == rgba_dims(*self),
    {
        self.inner.dimensions()
    }

    /// Relies on image::ImageBuffer::get_pixel: it returns the pixel at the
    /// given in-bounds position.
    #[verifier::external_body]
    fn get_pixel(&self, x: u32, y: u32) -> (r: (u8, u8, u8, u8))
        requires
            x < rgba_dims(*self).0,
            y < rgba_dims(*self).1,
        ensures
            r == rgba_pixels(*self)[(x as int, y as int)],
    {
        let p = self.inner.get_pixel(x, y);
        (p.0[0], p.0[1], p.0[2], p.0[3])
    }

    /// The pixel at the given position, or nothing when the position lies
    /// outside the texture.
    pub fn pixel_at(&self, x: u32, y: u32) -> (r: Option<(u8, u8, u8, u8)>)
        ensures
            r is Some <==> x < rgba_dims(*self).0 && y < rgba_dims(*self).1,
            r is Some ==> r.unwrap() == rgba_pixels(*self)[(x as int, y as int)],
    {
        let (width, height) = self.dimensions();
        if x < width && y < height {
            Some(self.get_pixel(x, y))
        } else {
            None
        }
    }

    /// Relies on image::ImageBuffer::as_raw and its documented layout: the
    /// backing store holds the pixels row-major, top to bottom and left to
    /// right within a row, four bytes per pixel in RGBA channel order. The
    /// buffers this crate constructs are exactly that large.
    #[verifier::external_body]
    fn raw_bytes(&self) -> (r: Vec<u8>)
        ensures
            r@.len() == 4 * rgba_dims(*self).0 * rgba_dims(*self).1,
            forall|px: int, py: int|
                0 <= px < rgba_dims(*self).0 && 0 <= py < rgba_dims(*self).1 ==> r@[4 * (py
                    * rgba_dims(*self).0 + px)] == (#[trigger] rgba_pixels(*self)[(px, py)]).0
                    && r@[4 * (py * rgba_dims(*self).0 + px) + 1] == rgba_pixels(*self)[
                    (px, py)].1 && r@[4 * (py * rgba_dims(*self).0 + px) + 2] == rgba_pixels(
                    *self,
                )[(px, py)].2 && r@[4 * (py * rgba_dims(*self).0 + px) + 3] == rgba_pixels(
                    *self,
                )[(px, py)].3,
    {
        self.inner.as_raw().clone()
    }
}

/// How many tiles the image is split into: without tiling a single clamped
/// tile, with tiling one tile when the image fits, else the full grid.
pub open spec fn spec_tile_count(width: u32, height: u32, tiling: bool) -> int {
    if !tiling || (width <= TILE_SIZE && height <= TILE_SIZE) {
        1
    } else {
        grid_count(width, height, TILE_SIZE)
    }
}

/// The rectangle the i-th tile is cut from: without tiling the top-left
/// corner clamped to one tile, with tiling the whole image when it fits,
/// else the i-th rectangle of the grid.
pub open spec fn spec_tile_rect(width: u32, height: u32, tiling: bool, i: int) -> (
    int,
    int,
    int,
    int,
) {
    if !tiling {
        (
            0,
            0,
            if TILE_SIZE <= width {
                TILE_SIZE as int
            } else {
                width as int
            },
            if TILE_SIZE <= height {
                TILE_SIZE as int
            } else {
                height as int
            },
        )
    } else if width <= TILE_SIZE && height <= TILE_SIZE {
        (0, 0, width as int, height as int)
    } else {
        grid_rect(width, height, TILE_SIZE, i)
    }
}

/// One produced tile against the rectangle it was cut from: it is stamped
/// with the rectangle's origin, has the rectangle's size, and holds exactly
/// the source's pixels from that rectangle.
pub open spec fn tile_ok(
    pixels: Map<(int, int), (u8, u8, u8, u8)>,
    t: (u32, u32, RgbaTexture),
    rect: (int, int, int, int),
) -> bool {
    &&& t.0 == rect.0
    &&& t.1 == rect.1
    &&& rgba_dims(t.2).0 == rect.2
    &&& rgba_dims(t.2).1 == rect.3
    &&& forall|px: int, py: int|
        0 <= px < rect.2 && 0 <= py < rect.3 ==> #[trigger] rgba_pixels(t.2)[(px, py)] == pixels[
            (rect.0 + px, rect.1 + py)]
}

/// The produced tiles are exactly the tiles of a source of the given
/// dimensions and pixels: as many as the split owes, each matching its
/// rectangle.
pub open spec fn tiles_match(
    tiles: Seq<(u32, u32, RgbaTexture)>,
    width: u32,
    height: u32,
    pixels: Map<(int, int), (u8, u8, u8, u8)>,
    tiling: bool,
) -> bool {
    &&& tiles.len() == spec_tile_count(width, height, tiling)
    &&& forall|i: int|
        0 <= i < tiles.len() ==> #[trigger] tile_ok(
            pixels,
            tiles[i],
            spec_tile_rect(width, height, tiling, i),
        )
}

/// The pixel (px, py) of the source lies inside the tile's rectangle.
pub open spec fn tile_contains_pixel(t: (u32, u32, RgbaTexture), px: int, py: int) -> bool {
    &&& t.0 <= px < t.0 + rgba_dims(t.2).0
    &&& t.1 <= py < t.1 + rgba_dims(t.2).1
}

/// Law: when an image larger than one tile is tiled, every pixel of the
/// source lies in exactly one tile, and that tile holds the pixel's value
/// at the pixel's position relative to the tile's origin.
pub proof fn lemma_tiles_cover_pixel(
    tiles: Seq<(u32, u32, RgbaTexture)>,
    width: u32,
    height: u32,
    pixels: Map<(int, int), (u8, u8, u8, u8)>,
    px: int,
    py: int,
)
    requires
        tiles_match(tiles, width, height, pixels, true),
        width > TILE_SIZE || height > TILE_SIZE,
        0 <= px < width,
        0 <= py < height,
    ensures
        exists|i: int| 0 <= i < tiles.len() && #[trigger] tile_contains_pixel(tiles[i], px, py),
        forall|i: int|
            0 <= i < tiles.len() && #[trigger] tile_contains_pixel(tiles[i], px, py)
                ==> rgba_pixels(tiles[i].2)[(px - tiles[i].0, py - tiles[i].1)] == pixels[(px, py)],
        forall|i: int, j: int|
            0 <= i < tiles.len() && 0 <= j < tiles.len() && #[trigger] tile_contains_pixel(
                tiles[i],
                px,
                py,
            ) && #[trigger] tile_contains_pixel(tiles[j], px, py) ==> i == j,
{
    let ts = TILE_SIZE as int;
    let cols = tiles_across(width, TILE_SIZE);
    let i0 = (py / ts) * cols + px / ts;
    lemma_grid_covers(width, height, TILE_SIZE, px, py);
    assert(tile_ok(pixels, tiles[i0], spec_tile_rect(width, height, true, i0)));
    assert(tile_contains_pixel(tiles[i0], px, py));
    assert forall|i: int|
        0 <= i < tiles.len() && #[trigger] tile_contains_pixel(tiles[i], px, py) implies rgba_pixels(
        tiles[i].2,
    )[(px - tiles[i].0, py - tiles[i].1)] == pixels[(px, py)] by {
        let rect = spec_tile_rect(width, height, true, i);
        assert(tile_ok(pixels, tiles[i], rect));
        assert(rgba_pixels(tiles[i].2)[(px - rect.0, py - rect.1)] == pixels[(rect.0 + (px - rect.0),
            rect.1 + (py - rect.1))]);
    }
    assert forall|i: int, j: int|
        0 <= i < tiles.len() && 0 <= j < tiles.len() && #[trigger] tile_contains_pixel(
            tiles[i],
            px,
            py,
        ) && #[trigger] tile_contains_pixel(tiles[j], px, py) implies i == j by {
        assert(tile_ok(pixels, tiles[i], spec_tile_rect(width, height, true, i)));
        assert(tile_ok(pixels, tiles[j], spec_tile_rect(width, height, true, j)));
        lemma_grid_unique(width, height, TILE_SIZE, px, py, i);
        lemma_grid_unique(width, height, TILE_SIZE, px, py, j);
    }
}

/// The number of tile columns (or rows) covering `extent` pixels.
fn tiles_across_exec(extent: u32) -> (r: u32)
    ensures
        r as int == tiles_across(extent, TILE_SIZE),
{
    if extent == 0 {
        0
    } else {
        let r = (extent - 1) / TILE_SIZE + 1;
        proof {
            vstd::arithmetic::div_mod::lemma_fundamental_div_mod(extent - 1, TILE_SIZE as int);
            vstd::arithmetic::div_mod::lemma_mod_bound(extent - 1, TILE_SIZE as int);
            vstd::arithmetic::div_mod::lemma_fundamental_div_mod_converse_div(
                extent + TILE_SIZE - 1,
                TILE_SIZE as int,
                (extent - 1) / (TILE_SIZE as int) + 1,
                (extent - 1) % (TILE_SIZE as int),
            );
        }
        r
    }
}

/// Splits an RGBA texture into tiles. Without tiling, a single tile clamped
/// to at most `TILE_SIZE` in each dimension is cut from the top-left
/// corner; with tiling, an image that fits a single tile is copied whole,
/// and a larger image is cut along the grid of `crate::tiling`, row-major.
#[verifier::loop_isolation(false)]
pub fn tile_rgba(img: &RgbaTexture, tiling: bool) -> (tiles: Vec<(u32, u32, RgbaTexture)>)
    ensures
        tiles_match(tiles@, rgba_dims(*img).0, rgba_dims(*img).1, rgba_pixels(*img), tiling),
{
    let (width, height) = img.dimensions();
    let mut tiles: Vec<(u32, u32, RgbaTexture)> = Vec::new();

    if !tiling {
        let tile_width = if TILE_SIZE <= width {
            TILE_SIZE
        } else {
            width
        };
        let tile_height = if TILE_SIZE <= height {
            TILE_SIZE
        } else {
            height
        };
        let tile = crop_rgba(img, 0, 0, tile_width, tile_height);
        tiles.push((0, 0, tile));
        return tiles;
    }

    if width <= TILE_SIZE && height <= TILE_SIZE {
        let tile = crop_rgba(img, 0, 0, width, height);
        tiles.push((0, 0, tile));
        return tiles;
    }

    let cols = tiles_across_exec(width);
    let rows = tiles_across_exec(height);
    let mut row: u32 = 0;
    while row < rows
        invariant
            row <= rows,
            tiles@.len() == row * (cols as int),
            forall|k: int|
                0 <= k < tiles@.len() ==> #[trigger] tile_ok(
                    rgba_pixels(*img),
                    tiles@[k],
                    grid_rect(width, height, TILE_SIZE, k),
                ),
        decreases rows - row,
    {
        proof {
            lemma_origin_in_range(height, TILE_SIZE, row as int);
        }
        let y = row * TILE_SIZE;
        let tile_height = if height - y <= TILE_SIZE {
            height - y
        } else {
            TILE_SIZE
        };
        let mut col: u32 = 0;
        while col < cols
            invariant
                row < rows,
                col <= cols,
                y == row * (TILE_SIZE as int),
                tile_height == span(y as int, height, TILE_SIZE),
                y + tile_height <= height,
                tiles@.len() == row * (cols as int) + col,
                forall|k: int|
                    0 <= k < tiles@.len() ==> #[trigger] tile_ok(
                        rgba_pixels(*img),
                        tiles@[k],
                        grid_rect(width, height, TILE_SIZE, k),
                    ),
            decreases cols - col,
        {
            proof {
                lemma_origin_in_range(width, TILE_SIZE, col as int);
            }
            let x = col * TILE_SIZE;
            let tile_width = if width - x <= TILE_SIZE {
                width - x
            } else {
                TILE_SIZE
            };
            let tile = crop_rgba(img, x, y, tile_width, tile_height);
            tiles.push((x, y, tile));
            proof {
                lemma_grid_index(width, height, TILE_SIZE, row as int, col as int);
                assert(tile_ok(
                    rgba_pixels(*img),
                    tiles@[tiles@.len() - 1],
                    grid_rect(width, height, TILE_SIZE, row * (cols as int) + col),
                ));
            }
            col = col + 1;
        }
        proof {
            assert((row + 1) * (cols as int) == row * (cols as int) + cols) by (nonlinear_arith);
        }
        row = row + 1;
    }
    proof {
        assert(rows * (cols as int) == (cols as int) * (rows as int)) by (nonlinear_arith);
    }
    tiles
}

/// The error of a material whose image bytes cannot be decoded.
#[derive(Clone, Copy, Debug, PartialEq, Eq, Structural)]
pub enum MaterialError {
    Decode,
}

/// A material ready for upload: the pixel data of its texture tile and the
/// layout of the upload.
pub struct Material {
    /// The tile's pixel data: row-major, four bytes per pixel, RGBA.
    pub texture_bytes: Vec<u8>,
    /// Width of the tile in pixels.
    pub width: u32,
    /// Height of the tile in pixels.
    pub height: u32,
    /// Bytes per row of the upload: four bytes per pixel.
    pub bytes_per_row: u32,
    /// Rows per image of the upload: the tile's height.
    pub rows_per_image: u32,
}

/// The material holds the top-left tile of a source of the given dimensions
/// and pixels: its size is the source's, clamped to one tile, its pixel
/// data is the source's from that corner, and the upload layout agrees with
/// that size.
pub open spec fn material_matches(
    m: Material,
    width: u32,
    height: u32,
    pixels: Map<(int, int), (u8, u8, u8, u8)>,
) -> bool {
    &&& m.width == if TILE_SIZE <= width {
        TILE_SIZE as int
    } else {
        width as int
    }
    &&& m.height == if TILE_SIZE <= height {
        TILE_SIZE as int
    } else {
        height as int
    }
    &&& m.texture_bytes@.len() == 4 * m.width * m.height
    &&& forall|px: int, py: int|
        0 <= px < m.width && 0 <= py < m.height ==> m.texture_bytes@[4 * (py * m.width + px)] == (
        #[trigger] pixels[(px, py)]).0 && m.texture_bytes@[4 * (py * m.width + px) + 1] == pixels[
            (px, py)].1 && m.texture_bytes@[4 * (py * m.width + px) + 2] == pixels[(px, py)].2
            && m.texture_bytes@[4 * (py * m.width + px) + 3] == pixels[(px, py)].3
    &&& m.bytes_per_row == 4 * m.width
    &&& m.rows_per_image == m.height
}

impl Material {
    /// The upload layout agrees with the texture data: at most one tile in
    /// each direction, four bytes per pixel, a full buffer.
    pub open spec fn wf(self) -> bool {
        &&& self.width <= TILE_SIZE
        &&& self.height <= TILE_SIZE
        &&& self.bytes_per_row == 4 * self.width
        &&& self.rows_per_image == self.height
        &&& self.texture_bytes@.len() == 4 * self.width * self.height
    }

    /// Decodes image bytes and splits the decoded image into tiles; fails
    /// exactly when the bytes cannot be decoded, and otherwise returns
    /// exactly the tiles of the image the bytes decode to.
    pub fn tile_image(image_bytes: &[u8], tiling: bool) -> (r: Result<
        Vec<(u32, u32, RgbaTexture)>,
        MaterialError,
    >)
        ensures
            r is Ok <==> spec_decode_ok(image_bytes@),
            r is Ok ==> tiles_match(
                r.unwrap()@,
                decoded_dims(image_bytes@).0,
                decoded_dims(image_bytes@).1,
                decoded_pixels(image_bytes@),
                tiling,
            ),
    {
        let decoded = match load_image(image_bytes) {
            Ok(decoded) => decoded,
            Err(_) => {
                return Err(MaterialError::Decode);
            },
        };
        let converted = convert_to_rgba8(&decoded);
        let tiles = tile_rgba(&converted, tiling);
        proof {
            assert(rgba_dims(converted) == decoded_dims(image_bytes@));
            assert(rgba_pixels(converted) == decoded_pixels(image_bytes@));
        }
        Ok(tiles)
    }

    /// Builds the material for the given image bytes: the decoded image's
    /// top-left tile, clamped to `TILE_SIZE`, with its upload layout. Fails
    /// exactly when the bytes cannot be decoded.
    pub fn new(image_bytes: &[u8]) -> (r: Result<Material, MaterialError>)
        ensures
            r is Ok <==> spec_decode_ok(image_bytes@),
            r is Ok ==> r.unwrap().wf(),
            r is Ok ==> material_matches(
                r.unwrap(),
                decoded_dims(image_bytes@).0,
                decoded_dims(image_bytes@).1,
                decoded_pixels(image_bytes@),
            ),
    {
        let decoded = match load_image(image_bytes) {
            Ok(decoded) => decoded,
            Err(_) => {
                return Err(MaterialError::Decode);
            },
        };
        let converted = convert_to_rgba8(&decoded);
        let mut tiles = tile_rgba(&converted, false);
        proof {
            assert(tile_ok(
                rgba_pixels(converted),
                tiles@[0],
                spec_tile_rect(rgba_dims(converted).0, rgba_dims(converted).1, false, 0),
            ));
        }
        let tile = match tiles.pop() {
            Some(tile) => tile,
            None => {
                return Err(MaterialError::Decode);
            },
        };
        let (width, height) = tile.2.dimensions();
        let texture_bytes = tile.2.raw_bytes();
        let bytes_per_row = 4 * width;
        let m = Material { texture_bytes, width, height, bytes_per_row, rows_per_image: height };
        proof {
            assert forall|px: int, py: int| 0 <= px < m.width && 0 <= py < m.height implies m.texture_bytes@[4
                * (py * m.width + px)] == (#[trigger] decoded_pixels(image_bytes@)[(px, py)]).0
                && m.texture_bytes@[4 * (py * m.width + px) + 1] == decoded_pixels(image_bytes@)[
                (px, py)].1 && m.texture_bytes@[4 * (py * m.width + px) + 2] == decoded_pixels(
                image_bytes@,
            )[(px, py)].2 && m.texture_bytes@[4 * (py * m.width + px) + 3] == decoded_pixels(
                image_bytes@,
            )[(px, py)].3 by {
                assert(rgba_pixels(tile.2)[(px, py)] == rgba_pixels(converted)[(0 + px, 0 + py)]);
                assert(rgba_pixels(converted)[(0 + px, 0 + py)] == rgba_pixels(converted)[
                    (px, py)]);
                assert(rgba_pixels(converted) == decoded_pixels(image_bytes@));
            }
            assert(rgba_dims(converted) == decoded_dims(image_bytes@));
            assert(material_matches(
                m,
                decoded_dims(image_bytes@).0,
                decoded_dims(image_bytes@).1,
                decoded_pixels(image_bytes@),
            ));
        }
        Ok(m)
    }
}

} // verus!
