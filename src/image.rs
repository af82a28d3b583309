use vstd::prelude::*;

use crate::dimension::Dimension;

verus! {

/// The supported ratios of image width to image height.
#[derive(Debug, Clone, Copy, PartialEq, Eq, PartialOrd, Ord)]
pub enum AspectRatios {
    SixteenByNine,
}

impl Default for AspectRatios {
    fn default() -> (r: Self)
        ensures
            r == AspectRatios::SixteenByNine,
    {
        AspectRatios::SixteenByNine
    }
}

impl AspectRatios {
    /// The width term of the ratio in lowest terms.
    pub open spec fn spec_width_part(self) -> nat {
        match self {
            AspectRatios::SixteenByNine => 16,
        }
    }

    /// The height term of the ratio in lowest terms.
    pub open spec fn spec_height_part(self) -> nat {
        match self {
            AspectRatios::SixteenByNine => 9,
        }
    }

    pub fn width_part(self) -> (r: usize)
        ensures
            r == self.spec_width_part(),
    {
        match self {
            AspectRatios::SixteenByNine => 16,
        }
    }

    pub fn height_part(self) -> (r: usize)
        ensures
            r == self.spec_height_part(),
    {
        match self {
            AspectRatios::SixteenByNine => 9,
        }
    }
}

/// The height that goes with `width` under `ratio`, truncated to a whole count.
pub open spec fn height_for_width(ratio: AspectRatios, width: nat) -> nat {
    width * ratio.spec_height_part() / ratio.spec_width_part()
}

/// The width that goes with `height` under `ratio`, truncated to a whole count.
pub open spec fn width_for_height(ratio: AspectRatios, height: nat) -> nat {
    height * ratio.spec_width_part() / ratio.spec_height_part()
}

/// Which one of the two extents of a raster was given; the other is derived.
#[derive(Debug, Clone, Copy, PartialEq, Eq, PartialOrd, Ord)]
pub enum WidthOrHeight {
    Height(Dimension),
    Width(Dimension),
}

impl Default for WidthOrHeight {
    fn default() -> (r: Self)
        ensures
            r == WidthOrHeight::Width(Dimension(0)),
    {
        WidthOrHeight::Width(Dimension::from(0))
    }
}

/// Output raster geometry: an aspect ratio and exactly one declared extent.
#[derive(Debug, Clone, Copy, PartialEq, Eq, PartialOrd, Ord)]
pub struct Image {
    aspect_ratio: AspectRatios,
    width_or_height: WidthOrHeight,
}

impl View for Image {
    type V = (AspectRatios, WidthOrHeight);

    closed spec fn view(&self) -> (AspectRatios, WidthOrHeight) {
        (self.aspect_ratio, self.width_or_height)
    }
}

impl Default for Image {
    fn default() -> (r: Self)
        ensures
            r@ == (AspectRatios::SixteenByNine, WidthOrHeight::Width(Dimension(0))),
    {
        Image { aspect_ratio: AspectRatios::default(), width_or_height: WidthOrHeight::default() }
    }
}

impl Image {
    /// Height in pixels: the declared one, or the one derived from the declared width.
    pub open spec fn spec_height(&self) -> nat {
        match self@.1 {
            WidthOrHeight::Height(height) => height@,
            WidthOrHeight::Width(width) => height_for_width(self@.0, width@),
        }
    }

    /// Width in pixels: the declared one, or the one derived from the declared height.
    pub open spec fn spec_width(&self) -> nat {
        match self@.1 {
            WidthOrHeight::Height(height) => width_for_height(self@.0, height@),
            WidthOrHeight::Width(width) => width@,
        }
    }

    pub fn _new_from_height(aspect_ratio: AspectRatios, height: Dimension) -> (r: Self)
        ensures
            r@ == (aspect_ratio, WidthOrHeight::Height(height)),
    {
        Image { aspect_ratio, width_or_height: WidthOrHeight::Height(height) }
    }

    pub fn new_from_width(aspect_ratio: AspectRatios, width: Dimension) -> (r: Self)
        ensures
            r@ == (aspect_ratio, WidthOrHeight::Width(width)),
    {
        Image { aspect_ratio, width_or_height: WidthOrHeight::Width(width) }
    }

    pub fn aspect_ratio(&self) -> (r: AspectRatios)
        ensures
            r == self@.0,
    {
        self.aspect_ratio
    }

    pub fn height(&self) -> (r: Dimension)
        ensures
            r@ == self.spec_height(),
    {
        match self.width_or_height {
            WidthOrHeight::Height(height) => height,
            WidthOrHeight::Width(width) => {
                let ratio_width = self.aspect_ratio.width_part();
                let ratio_height = self.aspect_ratio.height_part();
                let whole = width.0 / ratio_width;
                let rest = width.0 % ratio_width;
                proof {
                    lemma_scaled_quotient(width@ as int, ratio_height as int, ratio_width as int);
                }
                Dimension::from(whole * ratio_height + rest * ratio_height / ratio_width)
            },
        }
    }

    /// The pixel emitted at position `index`, as (column from the left, row from the bottom).
    pub fn pixel_at(&self, index: usize) -> (r: (usize, usize))
        requires
            self.spec_width() <= usize::MAX,
            index < self.spec_width() * self.spec_height(),
        ensures
            (r.0 as nat, r.1 as nat) == pixel_position(self.spec_width(), self.spec_height(), index as nat),
    {
        let width = self._width();
        let height = self.height();
        proof {
            lemma_row_below_height(width@, height@, index as nat);
        }
        (index % width.0, height.0 - 1 - index / width.0)
    }

    pub fn _width(&self) -> (r: Dimension)
        requires
            self.spec_width() <= usize::MAX,
        ensures
            r@ == self.spec_width(),
    {
        match self.width_or_height {
            WidthOrHeight::Height(height) => {
                let ratio_width = self.aspect_ratio.width_part();
                let ratio_height = self.aspect_ratio.height_part();
                let whole = height.0 / ratio_height;
                let rest = height.0 % ratio_height;
                proof {
                    lemma_scaled_quotient(height@ as int, ratio_width as int, ratio_height as int);
                }
                Dimension::from(whole * ratio_width + rest * ratio_width / ratio_height)
            },
            WidthOrHeight::Width(width) => width,
        }
    }
}

/// The pixel emitted at position `index` of an image `width` pixels wide and
/// `height` high: its column counted from the left edge and its row counted
/// from the bottom scanline. Scanlines go out top first, each left to right.
pub open spec fn pixel_position(width: nat, height: nat, index: nat) -> (nat, nat) {
    (index % width, (height - 1 - index / width) as nat)
}

/// The position in the output at which the pixel at `column` and `row` is emitted.
pub open spec fn emission_index(width: nat, height: nat, column: nat, row: nat) -> nat {
    ((height - 1 - row) * width + column) as nat
}

/// Pixels leave in scanline order: of two emitted one after the other, the
/// later one lies on a lower scanline, or on the same one further right.
pub proof fn lemma_pixel_order(width: nat, height: nat, earlier: nat, later: nat)
    requires
        earlier < later < width * height,
    ensures
        pixel_position(width, height, earlier).1 > pixel_position(width, height, later).1
            || (pixel_position(width, height, earlier).1 == pixel_position(width, height, later).1
            && pixel_position(width, height, earlier).0 < pixel_position(width, height, later).0),
        pixel_position(width, height, earlier).1 < height,
        pixel_position(width, height, later).1 < height,
{
    lemma_row_below_height(width, height, earlier);
    lemma_row_below_height(width, height, later);
    let (a, b) = (earlier as int, later as int);
    let w = width as int;
    assert(a / w <= b / w) by (nonlinear_arith)
        requires
            0 <= a < b,
            0 < w,
    ;
    if a / w == b / w {
        assert(a % w < b % w) by (nonlinear_arith)
            requires
                0 <= a < b,
                0 < w,
                a / w == b / w,
        ;
    }
}

/// Every pixel of the raster is emitted, at exactly one position.
pub proof fn lemma_every_pixel_emitted(width: nat, height: nat, column: nat, row: nat)
    requires
        column < width,
        row < height,
    ensures
        emission_index(width, height, column, row) < width * height,
        pixel_position(width, height, emission_index(width, height, column, row)) == (column, row),
        forall|index: nat|
            index < width * height && #[trigger] pixel_position(width, height, index) == (column, row)
                ==> index == emission_index(width, height, column, row),
{
    let (w, h, c, r) = (width as int, height as int, column as int, row as int);
    let line = h - 1 - r;
    assert(0 <= line * w + c < w * h) by (nonlinear_arith)
        requires
            0 <= c < w,
            0 <= r < h,
            line == h - 1 - r,
    ;
    assert((line * w + c) / w == line && (line * w + c) % w == c) by (nonlinear_arith)
        requires
            0 <= c < w,
            0 <= line,
    ;
    assert forall|index: nat|
        index < width * height && #[trigger] pixel_position(width, height, index) == (column, row)
            implies index == emission_index(width, height, column, row) by {
        let i = index as int;
        lemma_row_below_height(width, height, index);
        assert(i == (i / w) * w + i % w) by (nonlinear_arith)
            requires
                0 < w,
        ;
    }
}

/// The row of every emitted position lies inside the raster.
proof fn lemma_row_below_height(width: nat, height: nat, index: nat)
    requires
        index < width * height,
    ensures
        0 < width,
        index / width < height,
{
    assert(0 < width && index / width < height) by (nonlinear_arith)
        requires
            index < width * height,
    ;
}

/// `x * m / d` splits into the whole multiples of `d` in `x` and the remainder,
/// so that it can be computed without forming `x * m`.
proof fn lemma_scaled_quotient(x: int, m: int, d: int)
    requires
        0 <= x,
        0 <= m,
        0 < d,
        m <= 16,
        d <= 16,
    ensures
        x * m / d == (x / d) * m + (x % d) * m / d,
        (x / d) * m <= x * m / d,
        (x % d) * m / d <= m,
        (x % d) * m <= 16 * 16,
{
    let q = x / d;
    let r = x % d;
    assert(x == d * q + r && 0 <= r < d) by (nonlinear_arith)
        requires
            q == x / d,
            r == x % d,
            0 < d,
    ;
    assert(x * m == d * (q * m) + r * m) by (nonlinear_arith)
        requires
            x == d * q + r,
    ;
    assert((d * (q * m) + r * m) / d == q * m + (r * m) / d) by (nonlinear_arith)
        requires
            0 < d,
            0 <= r * m,
    ;
    assert(r * m <= 16 * 16 && (r * m) / d <= m) by (nonlinear_arith)
        requires
            0 <= r < d,
            0 <= m <= 16,
            d <= 16,
    ;
    assert(0 <= (r * m) / d) by (nonlinear_arith)
        requires
            0 <= r * m,
            0 < d,
    ;
}

} // verus!
