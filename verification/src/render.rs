//! The two rendering passes over a canvas: a colour gradient, then the
//! escape counts written into the green channel.

use vstd::prelude::*;
use crate::canvas::{png_encoding, Canvas, Color, Grid};
use crate::encode::{encode_for_path, is_png_file_name, RenderError};
use crate::julia::{sample, sample_at, Sample};

verus! {

/// The width of the rendered image, in pixels.
pub const WIDTH: u32 = 800;

/// The height of the rendered image, in pixels.
pub const HEIGHT: u32 = 800;

/// The path the rendered image is meant for. Its extension chooses the format.
pub const OUTPUT_PATH: &'static str = "fractal.png";

/// The gradient level at pixel index `i`: three tenths of the index, rounded
/// down and reduced to a byte.
pub open spec fn gradient_level(i: nat) -> u8 {
    ((3 * i / 10) % 256) as u8
}

/// The colour the gradient pass gives the pixel at `(x, y)`: red follows the
/// column, blue follows the row, green is empty.
pub open spec fn gradient_color(x: nat, y: nat) -> Color {
    Color { red: gradient_level(x), green: 0, blue: gradient_level(y) }
}

/// The grid the gradient pass leaves behind.
pub open spec fn gradient_grid(width: nat, height: nat) -> Grid {
    Grid {
        width,
        height,
        pixels: Map::new(
            |p: (int, int)| 0 <= p.0 < width && 0 <= p.1 < height,
            |p: (int, int)| gradient_color(p.0 as nat, p.1 as nat),
        ),
    }
}

/// Whether `after` is `before` with its green channel replaced by a count
/// that `count_of` gives for the sample of the pixel at `(x, y)`.
pub open spec fn green_counted<F: Fn(Sample) -> u8>(
    before: Color,
    after: Color,
    count_of: F,
    x: u32,
    y: u32,
) -> bool {
    &&& after.red == before.red
    &&& after.blue == before.blue
    &&& call_ensures(count_of, (sample_at(x, y),), after.green)
}

/// Whether `after` is `before` with the green channel of every pixel
/// replaced by a count that `count_of` gives for its sample.
pub open spec fn escape_marked<F: Fn(Sample) -> u8>(
    before: Grid,
    after: Grid,
    count_of: F,
) -> bool {
    &&& after.width == before.width
    &&& after.height == before.height
    &&& after.wf()
    &&& forall|x: int, y: int|
        before.contains(x, y) ==> green_counted(
            before.pixels[(x, y)],
            #[trigger] after.pixels[(x, y)],
            count_of,
            x as u32,
            y as u32,
        )
}

/// Whether `grid` is a finished rendering of the given dimensions: red and
/// blue form the gradient, and green holds at each position a count that
/// `count_of` gives for the position's sample.
pub open spec fn is_rendering<F: Fn(Sample) -> u8>(
    grid: Grid,
    width: nat,
    height: nat,
    count_of: F,
) -> bool {
    &&& grid.width == width
    &&& grid.height == height
    &&& grid.wf()
    &&& forall|x: int, y: int|
        grid.contains(x, y) ==> {
            let color = #[trigger] grid.pixels[(x, y)];
            &&& color.red == gradient_level(x as nat)
            &&& color.blue == gradient_level(y as nat)
            &&& call_ensures(count_of, (sample_at(x as u32, y as u32),), color.green)
        }
}

/// Whether `out` is what serialising a finished `WIDTH` by `HEIGHT`
/// rendering as PNG yields: the encoder's bytes for it or, where the encoder
/// refuses it, an encoding error.
pub open spec fn is_image<F: Fn(Sample) -> u8>(
    out: Result<Vec<u8>, RenderError>,
    count_of: F,
) -> bool {
    exists|grid: Grid|
        {
            &&& #[trigger] is_rendering(grid, WIDTH as nat, HEIGHT as nat, count_of)
            &&& match out {
                Ok(bytes) => png_encoding(grid) == Some(bytes@),
                Err(e) => e is Encoding && png_encoding(grid) is None,
            }
        }
}

/// Computes `gradient_level`.
pub fn gradient(i: u32) -> (level: u8)
    ensures
        level == gradient_level(i as nat),
{
    let scaled: u64 = 3 * (i as u64) / 10;
    (scaled % 256) as u8
}

/// `color` with its green channel replaced.
pub fn with_green(color: Color, green: u8) -> (out: Color)
    ensures
        out == (Color { red: color.red, green, blue: color.blue }),
{
    Color { red: color.red, green, blue: color.blue }
}

/// The first pass: gives every pixel its gradient colour, whatever it held.
pub fn gradient_pass(canvas: &mut Canvas)
    ensures
        final(canvas)@ == gradient_grid(old(canvas)@.width, old(canvas)@.height),
{
    let width = canvas.width();
    let height = canvas.height();
    let mut y: u32 = 0;
    while y < height
        invariant
            y <= height,
            canvas@.width == width,
            canvas@.height == height,
            forall|i: int, j: int|
                0 <= i < width && 0 <= j < y ==> #[trigger] canvas@.pixels[(i, j)]
                    == gradient_color(i as nat, j as nat),
        decreases height - y,
    {
        let blue = gradient(y);
        let mut x: u32 = 0;
        while x < width
            invariant
                x <= width,
                y < height,
                canvas@.width == width,
                canvas@.height == height,
                blue == gradient_level(y as nat),
                forall|i: int, j: int|
                    0 <= i < width && 0 <= j < y ==> #[trigger] canvas@.pixels[(i, j)]
                        == gradient_color(i as nat, j as nat),
                forall|i: int|
                    0 <= i < x ==> #[trigger] canvas@.pixels[(i, y as int)] == gradient_color(
                        i as nat,
                        y as nat,
                    ),
            decreases width - x,
        {
            canvas.put(x, y, Color { red: gradient(x), green: 0, blue });
            x += 1;
        }
        y += 1;
    }
    assert(canvas@.pixels =~= gradient_grid(width as nat, height as nat).pixels);
}

/// The second pass: asks `count_of` for the escape count of every pixel's
/// sample, column by column, and writes it into the pixel's green channel.
/// Red and blue stay as they were.
pub fn escape_pass<F: Fn(Sample) -> u8>(canvas: &mut Canvas, count_of: F)
    requires
        forall|x: u32, y: u32|
            old(canvas)@.contains(x as int, y as int) ==> call_requires(
                count_of,
                (sample_at(x, y),),
            ),
    ensures
        escape_marked(old(canvas)@, final(canvas)@, count_of),
{
    let ghost before = canvas@;
    let width = canvas.width();
    let height = canvas.height();
    let mut x: u32 = 0;
    while x < width
        invariant
            x <= width,
            before.width == width,
            before.height == height,
            canvas@.width == width,
            canvas@.height == height,
            forall|i: u32, j: u32|
                before.contains(i as int, j as int) ==> call_requires(
                    count_of,
                    (sample_at(i, j),),
                ),
            forall|i: int, j: int|
                0 <= i < x && 0 <= j < height ==> green_counted(
                    before.pixels[(i, j)],
                    #[trigger] canvas@.pixels[(i, j)],
                    count_of,
                    i as u32,
                    j as u32,
                ),
            forall|i: int, j: int|
                x <= i < width && 0 <= j < height ==> #[trigger] canvas@.pixels[(i, j)]
                    == before.pixels[(i, j)],
        decreases width - x,
    {
        let mut y: u32 = 0;
        while y < height
            invariant
                x < width,
                y <= height,
                before.width == width,
                before.height == height,
                canvas@.width == width,
                canvas@.height == height,
                forall|i: u32, j: u32|
                before.contains(i as int, j as int) ==> call_requires(
                    count_of,
                    (sample_at(i, j),),
                ),
                forall|i: int, j: int|
                    0 <= i < x && 0 <= j < height ==> green_counted(
                        before.pixels[(i, j)],
                        #[trigger] canvas@.pixels[(i, j)],
                        count_of,
                        i as u32,
                        j as u32,
                    ),
                forall|j: int|
                    0 <= j < y ==> green_counted(
                        before.pixels[(x as int, j)],
                        #[trigger] canvas@.pixels[(x as int, j)],
                        count_of,
                        x,
                        j as u32,
                    ),
                forall|j: int|
                    y <= j < height ==> #[trigger] canvas@.pixels[(x as int, j)]
                        == before.pixels[(x as int, j)],
                forall|i: int, j: int|
                    x < i < width && 0 <= j < height ==> #[trigger] canvas@.pixels[(i, j)]
                        == before.pixels[(i, j)],
            decreases height - y,
        {
            assert(before.contains(x as int, y as int));
            let count = count_of(sample(x, y));
            let color = canvas.get(x, y);
            canvas.put(x, y, with_green(color, count));
            y += 1;
        }
        x += 1;
    }
    proof {
        crate::canvas::lemma_canvas_wf(*canvas);
    }
}

/// Renders a canvas of the given dimensions: the gradient pass, then the
/// escape pass with the counts that `count_of` gives.
pub fn render<F: Fn(Sample) -> u8>(width: u32, height: u32, count_of: F) -> (canvas: Canvas)
    requires
        Canvas::spec_fits(width, height),
        forall|x: u32, y: u32|
            x < width && y < height ==> call_requires(count_of, (sample_at(x, y),)),
    ensures
        is_rendering(canvas@, width as nat, height as nat, count_of),
{
    let mut canvas = Canvas::new(width, height);
    gradient_pass(&mut canvas);
    escape_pass(&mut canvas, count_of);
    canvas
}

/// Renders the `WIDTH` by `HEIGHT` image and serialises it for
/// `OUTPUT_PATH`. The bytes are returned, not written.
pub fn create_image<F: Fn(Sample) -> u8>(count_of: F) -> (out: Result<Vec<u8>, RenderError>)
    requires
        forall|x: u32, y: u32|
            x < WIDTH && y < HEIGHT ==> call_requires(count_of, (sample_at(x, y),)),
    ensures
        is_image(out, count_of),
{
    let canvas = render(WIDTH, HEIGHT, count_of);
    proof {
        reveal_strlit("fractal.png");
        let path = OUTPUT_PATH@;
        assert(path.subrange(path.len() - 4, path.len() as int) =~= seq!['.', 'p', 'n', 'g']);
        assert(is_png_file_name(path));
    }
    let out = encode_for_path(&canvas, OUTPUT_PATH);
    assert(is_rendering(canvas@, WIDTH as nat, HEIGHT as nat, count_of));
    out
}

/// The gradient pass is reproducible: the colour it gives a position depends
/// on the position alone, so two passes, over canvases of any dimensions,
/// agree wherever both have a pixel.
pub proof fn lemma_gradient_reproducible(
    width: nat,
    height: nat,
    other_width: nat,
    other_height: nat,
    x: int,
    y: int,
)
    requires
        gradient_grid(width, height).contains(x, y),
        gradient_grid(other_width, other_height).contains(x, y),
    ensures
        gradient_grid(width, height).pixels[(x, y)] == gradient_grid(
            other_width,
            other_height,
        ).pixels[(x, y)],
        gradient_grid(width, height).pixels[(x, y)] == gradient_color(x as nat, y as nat),
{
}

/// The escape pass keeps the gradient: in a finished rendering red and blue
/// are what the gradient pass alone gives the position.
pub proof fn lemma_rendering_keeps_gradient<F: Fn(Sample) -> u8>(
    grid: Grid,
    width: nat,
    height: nat,
    count_of: F,
    x: int,
    y: int,
)
    requires
        is_rendering(grid, width, height, count_of),
        grid.contains(x, y),
    ensures
        grid.pixels[(x, y)].red == gradient_grid(width, height).pixels[(x, y)].red,
        grid.pixels[(x, y)].blue == gradient_grid(width, height).pixels[(x, y)].blue,
{
}

/// Rendering is deterministic: where `count_of` is a function, computing
/// `count`, two finished renderings of the same dimensions are the same
/// grid, pixel for pixel.
pub proof fn lemma_rendering_unique<F: Fn(Sample) -> u8>(
    one: Grid,
    other: Grid,
    width: nat,
    height: nat,
    count_of: F,
    count: spec_fn(Sample) -> u8,
)
    requires
        is_rendering(one, width, height, count_of),
        is_rendering(other, width, height, count_of),
        forall|at: Sample, n: u8| #[trigger] call_ensures(count_of, (at,), n) ==> n == count(at),
    ensures
        one == other,
        forall|x: int, y: int|
            one.contains(x, y) ==> #[trigger] one.pixels[(x, y)] == (Color {
                red: gradient_level(x as nat),
                green: count(sample_at(x as u32, y as u32)),
                blue: gradient_level(y as nat),
            }),
{
    assert forall|p: (int, int)| one.pixels.dom().contains(p) implies #[trigger] one.pixels[p]
        == other.pixels[p] by {
        assert(one.contains(p.0, p.1));
        assert(one.pixels[(p.0, p.1)] == other.pixels[(p.0, p.1)]);
    }
    assert(one.pixels =~= other.pixels);
}

/// Below index 854 the gradient level is three tenths of the index without
/// any reduction, and inside the rendered image it stays below 240.
pub proof fn lemma_gradient_level_unreduced(i: nat)
    ensures
        i < 854 ==> gradient_level(i) == 3 * i / 10,
        i < WIDTH && i < HEIGHT ==> gradient_level(i) < 240,
{
}

} // verus!
