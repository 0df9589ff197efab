//! The integer side of drawing the exposure chart: grid resolution, the
//! placement of the colour bar and the legend, and the conversion of the
//! rendered RGB image to RGBA.
use vstd::prelude::*;

verus! {

/// Number of grid steps along each axis of the exposure surface: a coarse
/// grid while the view is being dragged, a fine one otherwise.
pub fn surface_steps(steps: i32) -> (r: usize)
    ensures
        r == (if steps < 30 {
            10usize
        } else {
            25usize
        }),
{
    if steps < 30 {
        10
    } else {
        25
    }
}

/// Integer division rounding toward zero, as `/` on Rust integers, for a
/// positive divisor.
pub open spec fn div_toward_zero(a: int, b: int) -> int {
    if a >= 0 {
        a / b
    } else {
        -((-a) / b)
    }
}

/// Division toward zero leaves a remainder smaller than the divisor, with
/// the sign of the dividend: `a` is `b` times the quotient plus a remainder
/// in `0..b` for `a >= 0` and in `-b+1..=0` for `a < 0`.
pub proof fn law_div_toward_zero(a: int, b: int)
    requires
        b > 0,
    ensures
        a >= 0 ==> 0 <= a - b * div_toward_zero(a, b) < b,
        a < 0 ==> -b < a - b * div_toward_zero(a, b) <= 0,
{
    if a >= 0 {
        assert(0 <= a - b * (a / b) < b) by (nonlinear_arith)
            requires
                b > 0,
                a >= 0,
        ;
    } else {
        let n = -a;
        assert(0 <= n - b * (n / b) < b) by (nonlinear_arith)
            requires
                b > 0,
                n > 0,
        ;
        assert(a - b * (-(n / b)) == -(n - b * (n / b))) by (nonlinear_arith)
            requires
                n == -a,
        ;
    }
}

/// Where the colour bar and the legend stand in a chart image.
pub struct ChartLayout {
    /// Left edge of the colour bar.
    pub bar_left: i32,
    /// Top edge of the colour bar.
    pub bar_top: i32,
    /// Height of the colour bar, in pixel rows.
    pub bar_height: i32,
    /// Width of the colour bar.
    pub bar_width: i32,
    /// Right end of the legend.
    pub legend_right: i32,
    /// Bottom of the legend.
    pub legend_bottom: i32,
}

impl ChartLayout {
    /// The layout for an image of the given size: the bar 120 pixels from
    /// the right edge, 200 from the top and bottom, 40 wide; the legend 40
    /// pixels from the right and bottom edges.
    pub fn new(width: i32, height: i32) -> (r: ChartLayout)
        requires
            width >= i32::MIN + 120,
            height >= i32::MIN + 400,
        ensures
            r.bar_left == width - 120,
            r.bar_top == 200,
            r.bar_height == height - 400,
            r.bar_width == 40,
            r.legend_right == width - 40,
            r.legend_bottom == height - 40,
    {
        ChartLayout {
            bar_left: width - 120,
            bar_top: 200,
            bar_height: height - 400,
            bar_width: 40,
            legend_right: width - 40,
            legend_bottom: height - 40,
        }
    }

    /// The row of the label of level `i` of `levels` levels beside the colour
    /// bar: the bottom of the bar, raised by `i` parts of `levels - 1`.
    pub fn level_label_row(&self, i: i32, levels: i32) -> (r: i32)
        requires
            levels >= 2,
            i32::MIN <= i * self.bar_height <= i32::MAX,
            i32::MIN <= self.bar_top + self.bar_height <= i32::MAX,
            i32::MIN <= self.bar_top + self.bar_height - div_toward_zero(
                i * self.bar_height,
                levels - 1,
            ) <= i32::MAX,
        ensures
            r == self.bar_top + self.bar_height - div_toward_zero(i * self.bar_height, levels - 1),
    {
        let part = i * self.bar_height / (levels - 1);
        self.bar_top + self.bar_height - part
    }

    /// The left end of the legend for a text `text_width` pixels wide: room
    /// for the text and a 40-pixel line sample before the right end.
    pub fn legend_left(&self, text_width: u32) -> (r: i32)
        requires
            i32::MIN <= self.legend_right - text_width - 40 <= i32::MAX,
        ensures
            r == self.legend_right - text_width - 40,
    {
        ((self.legend_right as i64) - (text_width as i64) - 40) as i32
    }
}

/// `rgba` holds the pixels of `rgb` with an opaque alpha channel.
pub open spec fn rgba_of(rgb: Seq<u8>, rgba: Seq<u8>, pixels: int) -> bool {
    &&& rgba.len() == 4 * pixels
    &&& forall|p: int, c: int|
        0 <= p < pixels && 0 <= c < 3 ==> #[trigger] rgba[4 * p + c] == #[trigger] rgb[3 * p + c]
    &&& forall|p: int| 0 <= p < pixels ==> #[trigger] rgba[4 * p + 3] == 255
}

/// Converts the first `pixels` pixels of an RGB image to RGBA, opaque.
pub fn rgb_to_rgba(rgb: &Vec<u8>, pixels: usize) -> (rgba: Vec<u8>)
    requires
        3 * pixels <= rgb@.len(),
        4 * pixels <= usize::MAX,
    ensures
        rgba_of(rgb@, rgba@, pixels as int),
{
    let mut out: Vec<u8> = Vec::new();
    let mut i: usize = 0;
    while i < pixels
        invariant
            i <= pixels,
            3 * pixels <= rgb@.len(),
            4 * pixels <= usize::MAX,
            out@.len() == 4 * i,
            forall|p: int, c: int|
                0 <= p < i && 0 <= c < 3 ==> #[trigger] out@[4 * p + c] == #[trigger] rgb@[3 * p
                    + c],
            forall|p: int| 0 <= p < i ==> #[trigger] out@[4 * p + 3] == 255,
        decreases pixels - i,
    {
        let base = 3 * i;
        let ghost before = out@;
        out.push(rgb[base]);
        out.push(rgb[base + 1]);
        out.push(rgb[base + 2]);
        out.push(255);
        assert forall|p: int, c: int| 0 <= p < i + 1 && 0 <= c < 3 implies #[trigger] out@[4 * p
            + c] == #[trigger] rgb@[3 * p + c] by {
            if p < i {
                assert(out@[4 * p + c] == before[4 * p + c]);
            } else {
                assert(4 * p + c == 4 * i + c);
            }
        }
        assert forall|p: int| 0 <= p < i + 1 implies #[trigger] out@[4 * p + 3] == 255 by {
            if p < i {
                assert(out@[4 * p + 3] == before[4 * p + 3]);
            }
        }
        i = i + 1;
    }
    out
}

} // verus!
