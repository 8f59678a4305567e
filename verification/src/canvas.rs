//! The image canvas: a grid of colour triplets kept in an `image::ImageBuffer`.
//!
//! The buffer itself is opaque to the verifier. Its size and its pixels are
//! named by uninterpreted functions, and the few buffer operations the
//! renderer needs are wrapped with contracts over those names. Everything
//! else in this module is proved from those contracts.

use vstd::prelude::*;

verus! {

/// One colour sample of the canvas: a byte for each of the three channels.
#[derive(Clone, Copy, Debug, PartialEq, Eq, Structural)]
pub struct Color {
    pub red: u8,
    pub green: u8,
    pub blue: u8,
}

/// The colour every pixel of a fresh canvas has.
pub open spec fn black() -> Color {
    Color { red: 0, green: 0, blue: 0 }
}

/// The mathematical model of a canvas: its dimensions and the colour at each
/// position `(x, y)` with `x` counting columns and `y` counting rows.
pub struct Grid {
    pub width: nat,
    pub height: nat,
    pub pixels: Map<(int, int), Color>,
}

impl Grid {
    /// Whether `(x, y)` is a position of the grid.
    pub open spec fn contains(self, x: int, y: int) -> bool {
        0 <= x < self.width && 0 <= y < self.height
    }

    /// The positions of a `width` by `height` grid.
    pub open spec fn positions(width: nat, height: nat) -> Set<(int, int)> {
        Set::new(|p: (int, int)| 0 <= p.0 < width && 0 <= p.1 < height)
    }

    /// A grid holds a colour at each of its positions and nowhere else.
    pub open spec fn wf(self) -> bool {
        self.pixels.dom() == Self::positions(self.width, self.height)
    }

    /// The grid in which every position holds `color`.
    pub open spec fn filled(width: nat, height: nat, color: Color) -> Grid {
        Grid {
            width,
            height,
            pixels: Map::new(
                |p: (int, int)| 0 <= p.0 < width && 0 <= p.1 < height,
                |p: (int, int)| color,
            ),
        }
    }

    /// This grid with the colour at `(x, y)` replaced.
    pub open spec fn with_pixel(self, x: int, y: int, color: Color) -> Grid {
        Grid { width: self.width, height: self.height, pixels: self.pixels.insert((x, y), color) }
    }
}

/// A grid of colour triplets, stored in an `image::ImageBuffer` of 8-bit RGB
/// pixels. The buffer is hidden from the verifier, which knows it only by
/// `canvas_size` and `canvas_pixels`.
#[verifier::external_body]
pub struct Canvas {
    buffer: image::ImageBuffer<image::Rgb<u8>, Vec<u8>>,
}

/// The `image` crate's error type, carried through unread.
#[verifier::external_type_specification]
#[verifier::external_body]
pub struct ExImageError(image::ImageError);

/// The width and the height the canvas's buffer was made with.
pub uninterp spec fn canvas_size(canvas: Canvas) -> (nat, nat);

/// The colour the canvas's buffer holds at each position `(x, y)`.
pub uninterp spec fn canvas_pixels(canvas: Canvas) -> Map<(int, int), Color>;

/// The byte stream the `image` crate's PNG encoder produces for a grid of
/// 8-bit RGB pixels, or `None` where it reports an error instead.
pub uninterp spec fn png_encoding(grid: Grid) -> Option<Seq<u8>>;

/// Calls `image::ImageBuffer::new`. It allocates a vector of
/// `3 * width * height` zero bytes, which panics when that count exceeds what
/// a vector can hold; the result has the given dimensions and every pixel of
/// it is black.
#[verifier::external_body]
fn buffer_new(width: u32, height: u32) -> (canvas: Canvas)
    requires
        3 * width * height <= isize::MAX,
    ensures
        canvas_size(canvas) == (width as nat, height as nat),
        forall|x: int, y: int|
            0 <= x < width && 0 <= y < height ==> #[trigger] canvas_pixels(canvas)[(x, y)]
                == black(),
{
    Canvas { buffer: image::ImageBuffer::new(width, height) }
}

/// Calls `image::ImageBuffer::dimensions`, which returns the width and the
/// height the buffer was made with.
#[verifier::external_body]
fn buffer_dimensions(canvas: &Canvas) -> (size: (u32, u32))
    ensures
        canvas_size(*canvas) == (size.0 as nat, size.1 as nat),
{
    canvas.buffer.dimensions()
}

/// Calls `image::ImageBuffer::get_pixel`, which panics outside the bounds and
/// otherwise returns the three samples stored for the position.
#[verifier::external_body]
fn buffer_get(canvas: &Canvas, x: u32, y: u32) -> (color: Color)
    requires
        x < canvas_size(*canvas).0,
        y < canvas_size(*canvas).1,
    ensures
        color == canvas_pixels(*canvas)[(x as int, y as int)],
{
    let pixel = canvas.buffer.get_pixel(x, y);
    Color { red: pixel.0[0], green: pixel.0[1], blue: pixel.0[2] }
}

/// Calls `image::ImageBuffer::get_pixel_mut` and assigns through the
/// reference it returns. The call panics outside the bounds; inside them the
/// three samples of that one position are replaced and nothing else changes.
#[verifier::external_body]
fn buffer_put(canvas: &mut Canvas, x: u32, y: u32, color: Color)
    requires
        x < canvas_size(*old(canvas)).0,
        y < canvas_size(*old(canvas)).1,
    ensures
        canvas_size(*final(canvas)) == canvas_size(*old(canvas)),
        canvas_pixels(*final(canvas)) == canvas_pixels(*old(canvas)).insert(
            (x as int, y as int),
            color,
        ),
{
    *canvas.buffer.get_pixel_mut(x, y) = image::Rgb([color.red, color.green, color.blue]);
}

/// Calls `image::ImageBuffer::write_to` with `image::ImageFormat::Png` on a
/// cursor over an empty vector, and returns the vector. The encoder reads the
/// dimensions and the pixels and nothing else, so the bytes, or the failure,
/// are the same whenever those are; it refuses an image without columns or
/// without rows.
#[verifier::external_body]
pub(crate) fn buffer_png(canvas: &Canvas) -> (encoded: Result<Vec<u8>, image::ImageError>)
    ensures
        match encoded {
            Ok(bytes) => png_encoding(canvas@) == Some(bytes@),
            Err(_) => png_encoding(canvas@) is None,
        },
        canvas@.width == 0 || canvas@.height == 0 ==> encoded is Err,
{
    let mut bytes: Vec<u8> = Vec::new();
    canvas.buffer.write_to(&mut std::io::Cursor::new(&mut bytes), image::ImageFormat::Png)?;
    Ok(bytes)
}

impl View for Canvas {
    type V = Grid;

    /// The canvas as a grid: the buffer's dimensions, and its pixels at the
    /// positions inside them.
    open spec fn view(&self) -> Grid {
        Grid {
            width: canvas_size(*self).0,
            height: canvas_size(*self).1,
            pixels: Map::new(
                |p: (int, int)| 0 <= p.0 < canvas_size(*self).0 && 0 <= p.1 < canvas_size(*self).1,
                |p: (int, int)| canvas_pixels(*self)[p],
            ),
        }
    }
}

impl Canvas {
    /// Whether a canvas of these dimensions can be allocated at all: its
    /// three bytes per pixel must fit the largest vector.
    pub open spec fn spec_fits(width: u32, height: u32) -> bool {
        3 * width * height <= isize::MAX
    }

    /// Decides `spec_fits` without overflow.
    pub fn fits(width: u32, height: u32) -> (ok: bool)
        ensures
            ok == Self::spec_fits(width, height),
    {
        assert(width * height <= 0xffff_ffff * 0xffff_ffff) by (nonlinear_arith)
            requires
                width <= 0xffff_ffff,
                height <= 0xffff_ffff,
        ;
        assert(3 * width * height == 3 * (width * height)) by (nonlinear_arith);
        let pixels: u128 = (width as u128) * (height as u128);
        3 * pixels <= isize::MAX as u128
    }

    /// A canvas of the given dimensions with every pixel black.
    pub fn new(width: u32, height: u32) -> (canvas: Canvas)
        requires
            Self::spec_fits(width, height),
        ensures
            canvas@ == Grid::filled(width as nat, height as nat, black()),
    {
        let canvas = buffer_new(width, height);
        assert(canvas@.pixels =~= Grid::filled(width as nat, height as nat, black()).pixels);
        canvas
    }

    /// The number of columns.
    pub fn width(&self) -> (width: u32)
        ensures
            width == self@.width,
    {
        buffer_dimensions(self).0
    }

    /// The number of rows.
    pub fn height(&self) -> (height: u32)
        ensures
            height == self@.height,
    {
        buffer_dimensions(self).1
    }

    /// The colour at column `x`, row `y`.
    pub fn get(&self, x: u32, y: u32) -> (color: Color)
        requires
            self@.contains(x as int, y as int),
        ensures
            color == self@.pixels[(x as int, y as int)],
    {
        buffer_get(self, x, y)
    }

    /// Replaces the colour at column `x`, row `y`; every other pixel keeps
    /// its colour.
    pub fn put(&mut self, x: u32, y: u32, color: Color)
        requires
            old(self)@.contains(x as int, y as int),
        ensures
            final(self)@ == old(self)@.with_pixel(x as int, y as int, color),
    {
        buffer_put(self, x, y, color);
        assert(self@.pixels =~= old(self)@.with_pixel(x as int, y as int, color).pixels);
    }
}

/// Every canvas is a well-formed grid.
pub proof fn lemma_canvas_wf(canvas: Canvas)
    ensures
        canvas@.wf(),
{
    assert(canvas@.pixels.dom() =~= Grid::positions(canvas@.width, canvas@.height));
}

} // verus!
