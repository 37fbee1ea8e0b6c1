//! Drawing primitives.
//!
//! Each primitive is a short-lived value object: configured with `with_`
//! setters, then rendered once by its `plot` method. Here `plot` computes
//! the call record the native library is to receive — effective count,
//! resolved defaults, sentinel encodings, flag bits — or decides that no
//! native call happens at all. The shell forwards each returned record to
//! the corresponding native entry point together with the data pointers.
//!
//! Every `plot` method takes a [`PlotToken`], so a drawing call can only be
//! produced while a plot scope is open.
//!
//! The shared rule for primitives over two or more coordinate sequences:
//! the effective count is the minimum of the lengths, and a minimum of zero
//! means no native call — "nothing to draw" is not an error.

use vstd::prelude::*;
use vstd::string::*;

use crate::plot::{opt_str_view, PlotToken, IMPLOT_AUTO};
use crate::{str_no_nul, Colormap, PlotPoint, PlotRange};

verus! {

/// Flag bit the native header assigns to horizontal bars.
pub const BARS_HORIZONTAL: u32 = 1 << 10;

/// Flag bit the native header assigns to horizontal stems.
pub const STEMS_HORIZONTAL: u32 = 1 << 10;

/// Flag bit the native header assigns to vertical text.
pub const TEXT_VERTICAL: u32 = 1 << 10;

/// Flag bit the native header assigns to column-major heatmap data.
pub const HEATMAP_COL_MAJOR: u32 = 1 << 10;

/// Distance in bytes between consecutive samples of a dense `f64` buffer.
pub const SAMPLE_STRIDE: i32 = 8;

/// Bit pattern of 0.67 as `f64`, the native library's default bar width.
pub const DEFAULT_BAR_WIDTH: u64 = 0x3FE5_70A3_D70A_3D71;

/// Bit pattern of 1.0 as `f64`.
pub const F64_ONE: u64 = 0x3FF0_0000_0000_0000;

/// Bit pattern of 90.0 as `f64`, the native library's default pie start
/// angle.
pub const F64_NINETY: u64 = 0x4056_8000_0000_0000;

/// The smaller of two sequence lengths: the effective number of points a
/// primitive over parallel sequences plots, so no sequence is read past its
/// end.
pub open spec fn effective_count(a: nat, b: nat) -> nat {
    if a <= b {
        a
    } else {
        b
    }
}

/// Total-order key of an `f64` bit pattern. The key is monotone in the IEEE
/// 754 total order, which for values that are not NaN coincides with the
/// numeric order; negative values sort below positive ones, and -0.0 sorts
/// just below +0.0.
pub open spec fn sample_key(bits: u64) -> int {
    if bits >= 0x8000_0000_0000_0000 {
        0xFFFF_FFFF_FFFF_FFFF - bits
    } else {
        bits + 0x8000_0000_0000_0000
    }
}

/// Compute [`sample_key`] of an `f64` bit pattern.
pub fn sample_order_key(bits: u64) -> (k: u64)
    ensures
        k == sample_key(bits),
{
    if bits >= 0x8000_0000_0000_0000 {
        0xFFFF_FFFF_FFFF_FFFF - bits
    } else {
        bits + 0x8000_0000_0000_0000
    }
}

/// Whether a bit pattern encodes a NaN: its magnitude field lies above the
/// infinity encoding.
pub open spec fn is_nan_bits(bits: u64) -> bool {
    (if bits >= 0x8000_0000_0000_0000 {
        bits - 0x8000_0000_0000_0000
    } else {
        bits as int
    }) > 0x7FF0_0000_0000_0000
}

/// Compute [`is_nan_bits`] of an `f64` bit pattern.
pub fn sample_is_nan(bits: u64) -> (r: bool)
    ensures
        r == is_nan_bits(bits),
{
    let magnitude: u64 = if bits >= 0x8000_0000_0000_0000 {
        bits - 0x8000_0000_0000_0000
    } else {
        bits
    };
    magnitude > 0x7FF0_0000_0000_0000
}

/// The running minimum of the fallback scale scan, folding left to right as
/// the native numeric minimum does: a NaN sample never displaces the
/// minimum so far, a NaN minimum is displaced by the next non-NaN sample,
/// and between two non-NaN samples the smaller [`sample_key`] wins, ties
/// keeping the earlier one. When every sample is NaN the first one is kept.
pub open spec fn min_sample(values: Seq<u64>) -> u64
    recommends
        values.len() > 0,
    decreases values.len(),
{
    if values.len() <= 1 {
        values[0]
    } else {
        let prior = min_sample(values.drop_last());
        let last = values.last();
        if is_nan_bits(last) {
            prior
        } else if is_nan_bits(prior) {
            last
        } else if sample_key(last) < sample_key(prior) {
            last
        } else {
            prior
        }
    }
}

/// The running maximum of the fallback scale scan; NaN handling as in
/// [`min_sample`], and between two non-NaN samples the larger
/// [`sample_key`] wins, ties keeping the earlier one.
pub open spec fn max_sample(values: Seq<u64>) -> u64
    recommends
        values.len() > 0,
    decreases values.len(),
{
    if values.len() <= 1 {
        values[0]
    } else {
        let prior = max_sample(values.drop_last());
        let last = values.last();
        if is_nan_bits(last) {
            prior
        } else if is_nan_bits(prior) {
            last
        } else if sample_key(last) > sample_key(prior) {
            last
        } else {
            prior
        }
    }
}

/// Law: the fallback scale minimum is one of the samples; as soon as any
/// sample is not NaN, the minimum is not NaN either, and no non-NaN sample
/// sorts below it in the total order on encoded values.
pub proof fn lemma_min_sample_bounds(values: Seq<u64>)
    requires
        values.len() > 0,
    ensures
        values.contains(min_sample(values)),
        (exists|i: int| 0 <= i < values.len() && !is_nan_bits(#[trigger] values[i]))
            ==> !is_nan_bits(min_sample(values)),
        forall|i: int|
            0 <= i < values.len() && !is_nan_bits(#[trigger] values[i]) ==> sample_key(
                min_sample(values),
            ) <= sample_key(values[i]),
    decreases values.len(),
{
    if values.len() == 1 {
        assert(values[0] == min_sample(values));
    } else {
        lemma_min_sample_bounds(values.drop_last());
        let prior = min_sample(values.drop_last());
        let last = values.last();
        let m = min_sample(values);
        assert(values.drop_last().contains(prior));
        if values.drop_last().contains(m) {
            let j = choose|j: int|
                0 <= j < values.drop_last().len() && values.drop_last()[j] == m;
            assert(values[j] == m);
        } else {
            assert(values[values.len() - 1] == m);
        }
        if exists|i: int| 0 <= i < values.len() && !is_nan_bits(#[trigger] values[i]) {
            let w = choose|i: int| 0 <= i < values.len() && !is_nan_bits(#[trigger] values[i]);
            if w < values.len() - 1 {
                assert(!is_nan_bits(values.drop_last()[w]));
            }
            assert(!is_nan_bits(m));
        }
        assert forall|i: int|
            0 <= i < values.len() && !is_nan_bits(#[trigger] values[i]) implies sample_key(m)
            <= sample_key(values[i]) by {
            if i < values.len() - 1 {
                assert(!is_nan_bits(values.drop_last()[i]));
                assert(sample_key(prior) <= sample_key(values[i]));
            }
        }
    }
}

/// Law: the fallback scale maximum is one of the samples; as soon as any
/// sample is not NaN, the maximum is not NaN either, and no non-NaN sample
/// sorts above it in the total order on encoded values.
pub proof fn lemma_max_sample_bounds(values: Seq<u64>)
    requires
        values.len() > 0,
    ensures
        values.contains(max_sample(values)),
        (exists|i: int| 0 <= i < values.len() && !is_nan_bits(#[trigger] values[i]))
            ==> !is_nan_bits(max_sample(values)),
        forall|i: int|
            0 <= i < values.len() && !is_nan_bits(#[trigger] values[i]) ==> sample_key(
                max_sample(values),
            ) >= sample_key(values[i]),
    decreases values.len(),
{
    if values.len() == 1 {
        assert(values[0] == max_sample(values));
    } else {
        lemma_max_sample_bounds(values.drop_last());
        let prior = max_sample(values.drop_last());
        let last = values.last();
        let m = max_sample(values);
        assert(values.drop_last().contains(prior));
        if values.drop_last().contains(m) {
            let j = choose|j: int|
                0 <= j < values.drop_last().len() && values.drop_last()[j] == m;
            assert(values[j] == m);
        } else {
            assert(values[values.len() - 1] == m);
        }
        if exists|i: int| 0 <= i < values.len() && !is_nan_bits(#[trigger] values[i]) {
            let w = choose|i: int| 0 <= i < values.len() && !is_nan_bits(#[trigger] values[i]);
            if w < values.len() - 1 {
                assert(!is_nan_bits(values.drop_last()[w]));
            }
            assert(!is_nan_bits(m));
        }
        assert forall|i: int|
            0 <= i < values.len() && !is_nan_bits(#[trigger] values[i]) implies sample_key(m)
            >= sample_key(values[i]) by {
            if i < values.len() - 1 {
                assert(!is_nan_bits(values.drop_last()[i]));
                assert(sample_key(prior) >= sample_key(values[i]));
            }
        }
    }
}

/// One linear scan for the fallback color scale: the running minimum and
/// maximum of [`min_sample`] and [`max_sample`].
fn scan_min_max(values: &[u64]) -> (r: (u64, u64))
    requires
        values@.len() > 0,
    ensures
        r.0 == min_sample(values@),
        r.1 == max_sample(values@),
{
    let n: usize = values.len();
    let mut lo: u64 = values[0];
    let mut hi: u64 = values[0];
    let mut i: usize = 1;
    while i < n
        invariant
            1 <= i <= n,
            n == values@.len(),
            lo == min_sample(values@.take(i as int)),
            hi == max_sample(values@.take(i as int)),
        decreases n - i,
    {
        proof {
            assert(values@.take(i as int + 1).drop_last() =~= values@.take(i as int));
            assert(values@.take(i as int + 1).last() == values@[i as int]);
        }
        let v: u64 = values[i];
        if !sample_is_nan(v) {
            if sample_is_nan(lo) || sample_order_key(v) < sample_order_key(lo) {
                lo = v;
            }
            if sample_is_nan(hi) || sample_order_key(v) > sample_order_key(hi) {
                hi = v;
            }
        }
        i = i + 1;
    }
    proof {
        assert(values@.take(n as int) =~= values@);
    }
    (lo, hi)
}

/// Call record of a plain series (line, stairs, scatter): everything the
/// native call receives besides the two data pointers.
#[derive(Debug)]
pub struct SeriesDraw {
    /// Legend label.
    pub label: String,
    /// Number of points read from each sequence.
    pub count: usize,
    /// Flag bits.
    pub flags: u32,
    /// Index of the first sample.
    pub offset: i32,
    /// Distance in bytes between consecutive samples.
    pub stride: i32,
}

/// A line through points given by two coordinate sequences.
#[derive(Debug)]
pub struct PlotLine {
    /// Label shown in the legend for this line.
    pub label: String,
    /// Flag bits, as the native header defines them.
    pub flags: u32,
}

impl PlotLine {
    /// Create a new line to be plotted. Does not draw anything yet. The
    /// label must hold no NUL characters, since the native library receives
    /// it as a C string.
    pub fn new(label: &str) -> (r: PlotLine)
        requires
            str_no_nul(label@),
        ensures
            r.label@ == label@,
            r.flags == 0,
    {
        PlotLine { label: label.to_owned(), flags: 0 }
    }

    /// Set the flag bits.
    pub fn with_flags(self, flags: u32) -> (r: PlotLine)
        ensures
            r.label == self.label,
            r.flags == flags,
    {
        PlotLine { flags, ..self }
    }

    /// Plot the line through the points `(x[i], y[i])`, coordinates given as
    /// `f64` bit patterns. The effective count is the smaller length; when
    /// it is zero there is nothing to draw and no native call is made.
    pub fn plot(&self, _scope: &PlotToken, x: &[u64], y: &[u64]) -> (r: Option<SeriesDraw>)
        ensures
            r is Some <==> effective_count(x@.len(), y@.len()) > 0,
            r matches Some(d) ==> d.label@ == self.label@ && d.count == effective_count(
                x@.len(),
                y@.len(),
            ) && d.flags == self.flags && d.offset == 0 && d.stride == SAMPLE_STRIDE,
    {
        let count: usize = if x.len() <= y.len() {
            x.len()
        } else {
            y.len()
        };
        if count == 0 {
            return None;
        }
        Some(
            SeriesDraw {
                label: self.label.as_str().to_owned(),
                count,
                flags: self.flags,
                offset: 0,
                stride: SAMPLE_STRIDE,
            },
        )
    }
}

/// A stairs-style step line through points given by two coordinate
/// sequences.
#[derive(Debug)]
pub struct PlotStairs {
    /// Label shown in the legend for this line.
    pub label: String,
    /// Flag bits, as the native header defines them.
    pub flags: u32,
}

impl PlotStairs {
    /// Create a new stairs-style line to be plotted. Does not draw anything
    /// yet. The label must hold no NUL characters.
    pub fn new(label: &str) -> (r: PlotStairs)
        requires
            str_no_nul(label@),
        ensures
            r.label@ == label@,
            r.flags == 0,
    {
        PlotStairs { label: label.to_owned(), flags: 0 }
    }

    /// Set the flag bits.
    pub fn with_flags(self, flags: u32) -> (r: PlotStairs)
        ensures
            r.label == self.label,
            r.flags == flags,
    {
        PlotStairs { flags, ..self }
    }

    /// Plot the step line through the points `(x[i], y[i])`; same count and
    /// no-call rule as [`PlotLine::plot`].
    pub fn plot(&self, _scope: &PlotToken, x: &[u64], y: &[u64]) -> (r: Option<SeriesDraw>)
        ensures
            r is Some <==> effective_count(x@.len(), y@.len()) > 0,
            r matches Some(d) ==> d.label@ == self.label@ && d.count == effective_count(
                x@.len(),
                y@.len(),
            ) && d.flags == self.flags && d.offset == 0 && d.stride == SAMPLE_STRIDE,
    {
        let count: usize = if x.len() <= y.len() {
            x.len()
        } else {
            y.len()
        };
        if count == 0 {
            return None;
        }
        Some(
            SeriesDraw {
                label: self.label.as_str().to_owned(),
                count,
                flags: self.flags,
                offset: 0,
                stride: SAMPLE_STRIDE,
            },
        )
    }
}

/// A scatter plot of points given by two coordinate sequences.
#[derive(Debug)]
pub struct PlotScatter {
    /// Label shown in the legend for this scatter plot.
    pub label: String,
    /// Flag bits, as the native header defines them.
    pub flags: u32,
}

impl PlotScatter {
    /// Create a new scatter plot to be shown. Does not draw anything yet.
    /// The label must hold no NUL characters.
    pub fn new(label: &str) -> (r: PlotScatter)
        requires
            str_no_nul(label@),
        ensures
            r.label@ == label@,
            r.flags == 0,
    {
        PlotScatter { label: label.to_owned(), flags: 0 }
    }

    /// Set the flag bits.
    pub fn with_flags(self, flags: u32) -> (r: PlotScatter)
        ensures
            r.label == self.label,
            r.flags == flags,
    {
        PlotScatter { flags, ..self }
    }

    /// Plot the points `(x[i], y[i])`; same count and no-call rule as
    /// [`PlotLine::plot`].
    pub fn plot(&self, _scope: &PlotToken, x: &[u64], y: &[u64]) -> (r: Option<SeriesDraw>)
        ensures
            r is Some <==> effective_count(x@.len(), y@.len()) > 0,
            r matches Some(d) ==> d.label@ == self.label@ && d.count == effective_count(
                x@.len(),
                y@.len(),
            ) && d.flags == self.flags && d.offset == 0 && d.stride == SAMPLE_STRIDE,
    {
        let count: usize = if x.len() <= y.len() {
            x.len()
        } else {
            y.len()
        };
        if count == 0 {
            return None;
        }
        Some(
            SeriesDraw {
                label: self.label.as_str().to_owned(),
                count,
                flags: self.flags,
                offset: 0,
                stride: SAMPLE_STRIDE,
            },
        )
    }
}

/// Call record of a bar plot.
#[derive(Debug)]
pub struct BarsDraw {
    /// Legend label.
    pub label: String,
    /// Number of bars read from each sequence.
    pub count: usize,
    /// Bar width in plot coordinates, as an `f64` bit pattern.
    pub bar_width: u64,
    /// Flag bits; holds [`BARS_HORIZONTAL`] for horizontal bars.
    pub flags: u32,
    /// Index of the first sample.
    pub offset: i32,
    /// Distance in bytes between consecutive samples.
    pub stride: i32,
}

/// A bar plot, vertical or horizontal.
#[derive(Debug)]
pub struct PlotBars {
    /// Label shown in the legend.
    pub label: String,
    /// Width of the bars in plot coordinates, as an `f64` bit pattern.
    pub bar_width: u64,
}

impl PlotBars {
    /// Create a new bar plot to be shown, with the native library's default
    /// bar width. Does not draw anything yet. The label must hold no NUL
    /// characters.
    pub fn new(label: &str) -> (r: PlotBars)
        requires
            str_no_nul(label@),
        ensures
            r.label@ == label@,
            r.bar_width == DEFAULT_BAR_WIDTH,
    {
        PlotBars { label: label.to_owned(), bar_width: DEFAULT_BAR_WIDTH }
    }

    /// Set the bar width in plot coordinates, as an `f64` bit pattern.
    pub fn with_bar_width(self, bar_width: u64) -> (r: PlotBars)
        ensures
            r.label == self.label,
            r.bar_width == bar_width,
    {
        PlotBars { bar_width, ..self }
    }

    /// Plot bars at `axis_positions` with heights (or, horizontally, with
    /// lengths) `bar_values`; same count and no-call rule as
    /// [`PlotLine::plot`].
    pub fn plot(
        &self,
        _scope: &PlotToken,
        axis_positions: &[u64],
        bar_values: &[u64],
        horizontal: bool,
    ) -> (r: Option<BarsDraw>)
        ensures
            r is Some <==> effective_count(axis_positions@.len(), bar_values@.len()) > 0,
            r matches Some(d) ==> d.label@ == self.label@ && d.count == effective_count(
                axis_positions@.len(),
                bar_values@.len(),
            ) && d.bar_width == self.bar_width && d.flags == (if horizontal {
                BARS_HORIZONTAL
            } else {
                0u32
            }) && d.offset == 0 && d.stride == SAMPLE_STRIDE,
    {
        let count: usize = if axis_positions.len() <= bar_values.len() {
            axis_positions.len()
        } else {
            bar_values.len()
        };
        if count == 0 {
            return None;
        }
        let flags: u32 = if horizontal {
            BARS_HORIZONTAL
        } else {
            0
        };
        Some(
            BarsDraw {
                label: self.label.as_str().to_owned(),
                count,
                bar_width: self.bar_width,
                flags,
                offset: 0,
                stride: SAMPLE_STRIDE,
            },
        )
    }
}

/// Call record of a text annotation.
#[derive(Debug)]
pub struct TextDraw {
    /// The text.
    pub text: String,
    /// Horizontal position in plot coordinates, as an `f64` bit pattern.
    pub x: u64,
    /// Vertical position in plot coordinates, as an `f64` bit pattern.
    pub y: u64,
    /// Horizontal pixel offset, as an `f32` bit pattern.
    pub pixel_offset_x: u32,
    /// Vertical pixel offset, as an `f32` bit pattern.
    pub pixel_offset_y: u32,
    /// Flag bits; holds [`TEXT_VERTICAL`] for vertical text.
    pub flags: u32,
}

/// A text label inside the plot.
#[derive(Debug)]
pub struct PlotText {
    /// The text to show.
    pub label: String,
    /// Horizontal pixel offset, independent of plot scaling, as an `f32`
    /// bit pattern.
    pub pixel_offset_x: u32,
    /// Vertical pixel offset, independent of plot scaling, as an `f32` bit
    /// pattern.
    pub pixel_offset_y: u32,
}

impl PlotText {
    /// Create a new text label to be shown, with no pixel offset. Does not
    /// draw anything yet. The text must hold no NUL characters.
    pub fn new(label: &str) -> (r: PlotText)
        requires
            str_no_nul(label@),
        ensures
            r.label@ == label@,
            r.pixel_offset_x == 0,
            r.pixel_offset_y == 0,
    {
        PlotText { label: label.to_owned(), pixel_offset_x: 0, pixel_offset_y: 0 }
    }

    /// Offset the text by whole pixels, independent of plot scaling; the
    /// components are `f32` bit patterns.
    pub fn with_pixel_offset(self, offset_x: u32, offset_y: u32) -> (r: PlotText)
        ensures
            r.label == self.label,
            r.pixel_offset_x == offset_x,
            r.pixel_offset_y == offset_y,
    {
        PlotText { pixel_offset_x: offset_x, pixel_offset_y: offset_y, ..self }
    }

    /// Place the text at `(x, y)` in plot coordinates (`f64` bit patterns),
    /// optionally rotated to vertical. Empty text means there is nothing to
    /// show and no native call is made.
    pub fn plot(&self, _scope: &PlotToken, x: u64, y: u64, vertical: bool) -> (r: Option<TextDraw>)
        ensures
            r is Some <==> self.label@.len() > 0,
            r matches Some(d) ==> d.text@ == self.label@ && d.x == x && d.y == y
                && d.pixel_offset_x == self.pixel_offset_x && d.pixel_offset_y
                == self.pixel_offset_y && d.flags == (if vertical {
                TEXT_VERTICAL
            } else {
                0u32
            }),
    {
        if self.label.as_str().is_empty() {
            return None;
        }
        let flags: u32 = if vertical {
            TEXT_VERTICAL
        } else {
            0
        };
        Some(
            TextDraw {
                text: self.label.as_str().to_owned(),
                x,
                y,
                pixel_offset_x: self.pixel_offset_x,
                pixel_offset_y: self.pixel_offset_y,
                flags,
            },
        )
    }
}

/// Call record of a heatmap.
#[derive(Debug)]
pub struct HeatmapDraw {
    /// Legend label.
    pub label: String,
    /// Number of rows of the value matrix.
    pub rows: u32,
    /// Number of columns of the value matrix.
    pub cols: u32,
    /// Lower end of the color scale, as an `f64` bit pattern.
    pub scale_min: u64,
    /// Upper end of the color scale, as an `f64` bit pattern.
    pub scale_max: u64,
    /// Per-cell label format; `None` shows no cell labels.
    pub label_format: Option<String>,
    /// Lower-left corner of the drawing area in plot coordinates.
    pub bounds_min: PlotPoint,
    /// Upper-right corner of the drawing area in plot coordinates.
    pub bounds_max: PlotPoint,
    /// Flag bits; holds [`HEATMAP_COL_MAJOR`] for column-major data.
    pub flags: u32,
}

/// A 2D heatmap over a matrix of values.
#[derive(Debug)]
pub struct PlotHeatmap {
    /// Label shown in the legend.
    pub label: String,
    /// Color scale as `(minimum, maximum)` bit patterns; `None` means the
    /// scale is computed from the data by one linear scan.
    pub scale_range: Option<(u64, u64)>,
    /// Per-cell label format shown when a cell is hovered; `None` shows no
    /// label.
    pub label_format: Option<String>,
    /// Lower-left corner of the drawing area in plot coordinates.
    pub drawarea_lower_left: PlotPoint,
    /// Upper-right corner of the drawing area in plot coordinates.
    pub drawarea_upper_right: PlotPoint,
}

impl PlotHeatmap {
    /// Create a new heatmap to be shown, with an automatic color scale, the
    /// "%.1f" cell label format, and the unit square as drawing area. Does
    /// not draw anything yet. The label must hold no NUL characters.
    pub fn new(label: &str) -> (r: PlotHeatmap)
        requires
            str_no_nul(label@),
        ensures
            r.label@ == label@,
            r.scale_range is None,
            opt_str_view(r.label_format) == Some("%.1f"@),
            r.drawarea_lower_left == (PlotPoint { x: 0, y: 0 }),
            r.drawarea_upper_right == (PlotPoint { x: F64_ONE, y: F64_ONE }),
    {
        PlotHeatmap {
            label: label.to_owned(),
            scale_range: None,
            label_format: Some("%.1f".to_owned()),
            drawarea_lower_left: PlotPoint { x: 0, y: 0 },
            drawarea_upper_right: PlotPoint { x: F64_ONE, y: F64_ONE },
        }
    }

    /// Fix the color scale to `(scale_min, scale_max)` bit patterns instead
    /// of computing it from the data.
    pub fn with_scale(self, scale_min: u64, scale_max: u64) -> (r: PlotHeatmap)
        ensures
            r == (PlotHeatmap { scale_range: Some((scale_min, scale_max)), ..self }),
    {
        PlotHeatmap { scale_range: Some((scale_min, scale_max)), ..self }
    }

    /// Set the per-cell label format; `None` shows no cell labels. A format
    /// must hold no NUL characters. The native side formats each cell into a
    /// fixed buffer, so a format producing very long text must not be used.
    pub fn with_label_format(self, label_format: Option<&str>) -> (r: PlotHeatmap)
        requires
            label_format matches Some(f) ==> str_no_nul(f@),
        ensures
            r.label == self.label,
            r.scale_range == self.scale_range,
            label_format matches Some(f) ==> opt_str_view(r.label_format) == Some(f@),
            label_format is None ==> r.label_format is None,
            r.drawarea_lower_left == self.drawarea_lower_left,
            r.drawarea_upper_right == self.drawarea_upper_right,
    {
        let fmt: Option<String> = match label_format {
            Some(f) => Some(f.to_owned()),
            None => None,
        };
        PlotHeatmap { label_format: fmt, ..self }
    }

    /// Set the drawing area as its lower-left and upper-right corners in
    /// plot coordinates.
    pub fn with_drawing_area(self, lower_left: PlotPoint, upper_right: PlotPoint) -> (r:
        PlotHeatmap)
        ensures
            r == (PlotHeatmap {
                drawarea_lower_left: lower_left,
                drawarea_upper_right: upper_right,
                ..self
            }),
    {
        PlotHeatmap { drawarea_lower_left: lower_left, drawarea_upper_right: upper_right, ..self }
    }

    /// Plot the heatmap over `values` (bit patterns, row-major unless
    /// `col_major`) with the given matrix shape. An empty value buffer means
    /// there is nothing to draw: no native call, not an error. The native
    /// call reads `number_of_rows * number_of_cols` samples, so the buffer
    /// must hold at least that many.
    pub fn plot(
        &self,
        _scope: &PlotToken,
        values: &[u64],
        number_of_rows: u32,
        number_of_cols: u32,
        col_major: bool,
    ) -> (r: Option<HeatmapDraw>)
        requires
            values@.len() >= number_of_rows * number_of_cols,
        ensures
            r is Some <==> values@.len() > 0,
            r matches Some(d) ==> {
                &&& d.label@ == self.label@
                &&& d.rows == number_of_rows
                &&& d.cols == number_of_cols
                &&& (self.scale_range matches Some(s) ==> d.scale_min == s.0 && d.scale_max == s.1)
                &&& (self.scale_range is None ==> d.scale_min == min_sample(values@) && d.scale_max
                    == max_sample(values@))
                &&& opt_str_view(d.label_format) == opt_str_view(self.label_format)
                &&& d.bounds_min == self.drawarea_lower_left
                &&& d.bounds_max == self.drawarea_upper_right
                &&& d.flags == (if col_major {
                    HEATMAP_COL_MAJOR
                } else {
                    0u32
                })
            },
    {
        if values.len() == 0 {
            return None;
        }
        let scale: (u64, u64) = match self.scale_range {
            Some(s) => s,
            None => scan_min_max(values),
        };
        let fmt: Option<String> = match &self.label_format {
            Some(f) => Some(f.as_str().to_owned()),
            None => None,
        };
        let flags: u32 = if col_major {
            HEATMAP_COL_MAJOR
        } else {
            0
        };
        Some(
            HeatmapDraw {
                label: self.label.as_str().to_owned(),
                rows: number_of_rows,
                cols: number_of_cols,
                scale_min: scale.0,
                scale_max: scale.1,
                label_format: fmt,
                bounds_min: self.drawarea_lower_left,
                bounds_max: self.drawarea_upper_right,
                flags,
            },
        )
    }
}

/// Call record of a stem plot.
#[derive(Debug)]
pub struct StemsDraw {
    /// Legend label.
    pub label: String,
    /// Number of stems read from each sequence.
    pub count: usize,
    /// Baseline the stems are drawn from, as an `f64` bit pattern.
    pub reference_y: u64,
    /// Flag bits; holds [`STEMS_HORIZONTAL`] for horizontal stems.
    pub flags: u32,
    /// Index of the first sample.
    pub offset: i32,
    /// Distance in bytes between consecutive samples.
    pub stride: i32,
}

/// A stem plot: vertical (or horizontal) lines from a reference baseline to
/// each value.
#[derive(Debug)]
pub struct PlotStems {
    /// Label shown in the legend.
    pub label: String,
    /// Baseline the stems are drawn from, as an `f64` bit pattern.
    pub reference_y: u64,
}

impl PlotStems {
    /// Create a new stem plot to be shown, with baseline 0.0. Does not draw
    /// anything yet. The label must hold no NUL characters.
    pub fn new(label: &str) -> (r: PlotStems)
        requires
            str_no_nul(label@),
        ensures
            r.label@ == label@,
            r.reference_y == 0,
    {
        PlotStems { label: label.to_owned(), reference_y: 0 }
    }

    /// Set the baseline, as an `f64` bit pattern.
    pub fn with_reference_y(self, reference_y: u64) -> (r: PlotStems)
        ensures
            r.label == self.label,
            r.reference_y == reference_y,
    {
        PlotStems { reference_y, ..self }
    }

    /// Plot stems at `axis_positions` reaching `stem_values`; same count and
    /// no-call rule as [`PlotLine::plot`].
    pub fn plot(
        &self,
        _scope: &PlotToken,
        axis_positions: &[u64],
        stem_values: &[u64],
        horizontal: bool,
    ) -> (r: Option<StemsDraw>)
        ensures
            r is Some <==> effective_count(axis_positions@.len(), stem_values@.len()) > 0,
            r matches Some(d) ==> d.label@ == self.label@ && d.count == effective_count(
                axis_positions@.len(),
                stem_values@.len(),
            ) && d.reference_y == self.reference_y && d.flags == (if horizontal {
                STEMS_HORIZONTAL
            } else {
                0u32
            }) && d.offset == 0 && d.stride == SAMPLE_STRIDE,
    {
        let count: usize = if axis_positions.len() <= stem_values.len() {
            axis_positions.len()
        } else {
            stem_values.len()
        };
        if count == 0 {
            return None;
        }
        let flags: u32 = if horizontal {
            STEMS_HORIZONTAL
        } else {
            0
        };
        Some(
            StemsDraw {
                label: self.label.as_str().to_owned(),
                count,
                reference_y: self.reference_y,
                flags,
                offset: 0,
                stride: SAMPLE_STRIDE,
            },
        )
    }
}

/// Call record of a shaded region.
#[derive(Debug)]
pub struct ShadedDraw {
    /// Legend label.
    pub label: String,
    /// Number of points read from each of the three sequences.
    pub count: usize,
    /// Flag bits.
    pub flags: u32,
    /// Index of the first sample.
    pub offset: i32,
    /// Distance in bytes between consecutive samples.
    pub stride: i32,
}

/// A shaded region between two y-sequences over a common x-sequence.
#[derive(Debug)]
pub struct PlotShaded {
    /// Label shown in the legend.
    pub label: String,
    /// Flag bits, as the native header defines them.
    pub flags: u32,
}

impl PlotShaded {
    /// Create a new shaded region to be shown. Does not draw anything yet.
    /// The label must hold no NUL characters.
    pub fn new(label: &str) -> (r: PlotShaded)
        requires
            str_no_nul(label@),
        ensures
            r.label@ == label@,
            r.flags == 0,
    {
        PlotShaded { label: label.to_owned(), flags: 0 }
    }

    /// Set the flag bits.
    pub fn with_flags(self, flags: u32) -> (r: PlotShaded)
        ensures
            r.label == self.label,
            r.flags == flags,
    {
        PlotShaded { flags, ..self }
    }

    /// Shade between `(xs[i], ys1[i])` and `(xs[i], ys2[i])`. The effective
    /// count is the smallest of the three lengths; when any sequence is
    /// empty there is nothing to draw and no native call is made.
    pub fn plot(&self, _scope: &PlotToken, xs: &[u64], ys1: &[u64], ys2: &[u64]) -> (r: Option<
        ShadedDraw,
    >)
        ensures
            r is Some <==> effective_count(effective_count(xs@.len(), ys1@.len()), ys2@.len()) > 0,
            r matches Some(d) ==> d.label@ == self.label@ && d.count == effective_count(
                effective_count(xs@.len(), ys1@.len()),
                ys2@.len(),
            ) && d.flags == self.flags && d.offset == 0 && d.stride == SAMPLE_STRIDE,
    {
        let mut count: usize = if xs.len() <= ys1.len() {
            xs.len()
        } else {
            ys1.len()
        };
        if ys2.len() < count {
            count = ys2.len();
        }
        if count == 0 {
            return None;
        }
        Some(
            ShadedDraw {
                label: self.label.as_str().to_owned(),
                count,
                flags: self.flags,
                offset: 0,
                stride: SAMPLE_STRIDE,
            },
        )
    }
}

/// Automatic binning method for histograms, as the native header names
/// them.
#[derive(Clone, Copy, Debug, PartialEq, Eq, Structural)]
pub enum PlotBinMethod {
    Sqrt,
    Sturges,
    Rice,
    Scott,
}

/// Bin specification of a histogram: a named automatic method, or an
/// explicit bin count.
#[derive(Clone, Copy, Debug, PartialEq, Eq, Structural)]
pub enum PlotBin {
    Auto(PlotBinMethod),
    Manual(u32),
}

/// The sentinel encoding of a bin specification in the native call: each
/// automatic method is a distinct negative code from the native header, and
/// a manual specification is the bin count itself, positive.
pub open spec fn bin_sentinel(bins: PlotBin) -> int {
    match bins {
        PlotBin::Auto(PlotBinMethod::Sqrt) => -1,
        PlotBin::Auto(PlotBinMethod::Sturges) => -2,
        PlotBin::Auto(PlotBinMethod::Rice) => -3,
        PlotBin::Auto(PlotBinMethod::Scott) => -4,
        PlotBin::Manual(n) => n as int,
    }
}

/// Encode a bin specification as the native call expects it; see
/// [`bin_sentinel`]. A manual count must fit the native signed argument.
pub fn bin_code(bins: &PlotBin) -> (r: i32)
    requires
        *bins matches PlotBin::Manual(n) ==> n <= 0x7FFF_FFFF,
    ensures
        r == bin_sentinel(*bins),
{
    match bins {
        PlotBin::Auto(PlotBinMethod::Sqrt) => -1,
        PlotBin::Auto(PlotBinMethod::Sturges) => -2,
        PlotBin::Auto(PlotBinMethod::Rice) => -3,
        PlotBin::Auto(PlotBinMethod::Scott) => -4,
        PlotBin::Manual(n) => *n as i32,
    }
}

/// Call record of a histogram.
#[derive(Debug)]
pub struct HistogramDraw {
    /// Legend label.
    pub label: String,
    /// Number of samples read.
    pub count: usize,
    /// Bin specification in sentinel encoding; see [`bin_sentinel`].
    pub bins: i32,
    /// Scale factor for bar heights, as an `f64` bit pattern.
    pub bar_scale: u64,
    /// Range of counted values; both ends zero means "count everything".
    pub range: PlotRange,
    /// Flag bits.
    pub flags: u32,
}

/// A histogram over a sample sequence.
#[derive(Debug)]
pub struct PlotHistogram {
    /// Label shown in the legend.
    pub label: String,
    /// Flag bits, as the native header defines them.
    pub flags: u32,
}

impl PlotHistogram {
    /// Create a new histogram to be shown. Does not draw anything yet. The
    /// label must hold no NUL characters.
    pub fn new(label: &str) -> (r: PlotHistogram)
        requires
            str_no_nul(label@),
        ensures
            r.label@ == label@,
            r.flags == 0,
    {
        PlotHistogram { label: label.to_owned(), flags: 0 }
    }

    /// Set the flag bits.
    pub fn with_flags(self, flags: u32) -> (r: PlotHistogram)
        ensures
            r.label == self.label,
            r.flags == flags,
    {
        PlotHistogram { flags, ..self }
    }

    /// Plot a histogram of `values` (bit patterns). `bins` selects the bin
    /// count, `bar_scale` defaults to 1.0, and `range` defaults to the empty
    /// range, which the native library reads as "count everything".
    pub fn plot(
        &self,
        _scope: &PlotToken,
        values: &[u64],
        bins: PlotBin,
        bar_scale: Option<u64>,
        range: Option<PlotRange>,
    ) -> (r: HistogramDraw)
        requires
            bins matches PlotBin::Manual(n) ==> n <= 0x7FFF_FFFF,
        ensures
            r.label@ == self.label@,
            r.count == values@.len(),
            r.bins == bin_sentinel(bins),
            r.bar_scale == (match bar_scale {
                Some(b) => b,
                None => F64_ONE,
            }),
            r.range == (match range {
                Some(g) => g,
                None => PlotRange { min: 0, max: 0 },
            }),
            r.flags == self.flags,
    {
        let bar_scale: u64 = match bar_scale {
            Some(b) => b,
            None => F64_ONE,
        };
        let range: PlotRange = match range {
            Some(g) => g,
            None => PlotRange { min: 0, max: 0 },
        };
        HistogramDraw {
            label: self.label.as_str().to_owned(),
            count: values.len(),
            bins: bin_code(&bins),
            bar_scale,
            range,
            flags: self.flags,
        }
    }
}

/// Call record of a pie chart.
#[derive(Debug)]
pub struct PieDraw {
    /// Slice labels; only the first `count` are read.
    pub labels: Vec<String>,
    /// Number of slices read from the labels and the values.
    pub count: usize,
    /// Horizontal center in plot coordinates, as an `f64` bit pattern.
    pub x: u64,
    /// Vertical center in plot coordinates, as an `f64` bit pattern.
    pub y: u64,
    /// Radius in plot coordinates, as an `f64` bit pattern.
    pub radius: u64,
    /// Slice label format.
    pub fmt: String,
    /// Starting angle in degrees, as an `f64` bit pattern.
    pub angle0: u64,
    /// Flag bits.
    pub flags: u32,
}

/// A pie chart of labeled values.
#[derive(Debug)]
pub struct PlotPieChart {
    /// Slice label format; `None` falls back to "%.1f".
    pub label_fmt: Option<String>,
    /// Flag bits, as the native header defines them.
    pub flags: u32,
}

impl PlotPieChart {
    /// Create a new pie chart to be shown. Does not draw anything yet.
    pub fn new() -> (r: PlotPieChart)
        ensures
            r.label_fmt is None,
            r.flags == 0,
    {
        PlotPieChart { label_fmt: None, flags: 0 }
    }

    /// Set the flag bits.
    pub fn with_flags(self, flags: u32) -> (r: PlotPieChart)
        ensures
            r.label_fmt == self.label_fmt,
            r.flags == flags,
    {
        PlotPieChart { flags, ..self }
    }

    /// Set the slice label format. It must hold no NUL characters.
    pub fn with_label_format(self, label_fmt: &str) -> (r: PlotPieChart)
        requires
            str_no_nul(label_fmt@),
        ensures
            opt_str_view(r.label_fmt) == Some(label_fmt@),
            r.flags == self.flags,
    {
        PlotPieChart { label_fmt: Some(label_fmt.to_owned()), ..self }
    }

    /// Plot a pie chart of `values` (bit patterns) with one label per slice,
    /// centered at `(x, y)` with the given radius, starting at `angle0`
    /// degrees (default 90.0). The effective slice count is the smaller of
    /// the label and value counts; when it is zero there is nothing to draw
    /// and no native call is made. Labels must hold no NUL characters.
    pub fn plot(
        &self,
        _scope: &PlotToken,
        labels: Vec<String>,
        values: &[u64],
        x: u64,
        y: u64,
        radius: u64,
        angle0: Option<u64>,
    ) -> (r: Option<PieDraw>)
        requires
            forall|i: int| 0 <= i < labels@.len() ==> str_no_nul(#[trigger] labels@[i]@),
        ensures
            r is Some <==> effective_count(labels@.len(), values@.len()) > 0,
            r matches Some(d) ==> {
                &&& d.labels == labels
                &&& d.count == effective_count(labels@.len(), values@.len())
                &&& d.x == x
                &&& d.y == y
                &&& d.radius == radius
                &&& d.fmt@ == (match self.label_fmt {
                    Some(f) => f@,
                    None => "%.1f"@,
                })
                &&& d.angle0 == (match angle0 {
                    Some(a) => a,
                    None => F64_NINETY,
                })
                &&& d.flags == self.flags
            },
    {
        let count: usize = if labels.len() <= values.len() {
            labels.len()
        } else {
            values.len()
        };
        if count == 0 {
            return None;
        }
        let fmt: String = match &self.label_fmt {
            Some(f) => f.as_str().to_owned(),
            None => "%.1f".to_owned(),
        };
        let angle0: u64 = match angle0 {
            Some(a) => a,
            None => F64_NINETY,
        };
        Some(PieDraw { labels, count, x, y, radius, fmt, angle0, flags: self.flags })
    }
}

impl Default for PlotPieChart {
    /// Same as [`PlotPieChart::new`].
    fn default() -> (r: PlotPieChart)
        ensures
            r.label_fmt is None,
            r.flags == 0,
    {
        PlotPieChart::new()
    }
}

/// Call record of a colormap scale legend.
#[derive(Debug)]
pub struct ColormapScaleDraw {
    /// Legend label.
    pub label: String,
    /// Lower end of the shown value range, as an `f64` bit pattern.
    pub scale_min: u64,
    /// Upper end of the shown value range, as an `f64` bit pattern.
    pub scale_max: u64,
    /// Width in host-interface units, as an `f32` bit pattern.
    pub size_x: u32,
    /// Height in host-interface units, as an `f32` bit pattern.
    pub size_y: u32,
    /// Tick label format.
    pub fmt: String,
    /// Flag bits.
    pub flags: u32,
    /// Colormap index, or [`IMPLOT_AUTO`] for the current colormap.
    pub cmap: i32,
}

/// A colormap scale legend: a colored bar annotating a value range.
#[derive(Debug)]
pub struct PlotColormap {
    /// Label shown at the scale.
    pub label: String,
    /// Flag bits, as the native header defines them.
    pub scale_flags: u32,
    /// Tick label format; `None` falls back to "%g".
    pub fmt: Option<String>,
}

impl PlotColormap {
    /// Create a new colormap scale to be shown. Does not draw anything yet.
    /// The label must hold no NUL characters.
    pub fn new(label: &str) -> (r: PlotColormap)
        requires
            str_no_nul(label@),
        ensures
            r.label@ == label@,
            r.scale_flags == 0,
            r.fmt is None,
    {
        PlotColormap { label: label.to_owned(), scale_flags: 0, fmt: None }
    }

    /// Set the flag bits.
    pub fn with_scale_flags(self, flags: u32) -> (r: PlotColormap)
        ensures
            r.label == self.label,
            r.scale_flags == flags,
            r.fmt == self.fmt,
    {
        PlotColormap { scale_flags: flags, ..self }
    }

    /// Set the tick label format. It must hold no NUL characters.
    pub fn with_format(self, fmt: &str) -> (r: PlotColormap)
        requires
            str_no_nul(fmt@),
        ensures
            r.label == self.label,
            r.scale_flags == self.scale_flags,
            opt_str_view(r.fmt) == Some(fmt@),
    {
        PlotColormap { fmt: Some(fmt.to_owned()), ..self }
    }

    /// Show the scale for the value range `(scale_min, scale_max)` (bit
    /// patterns), with an optional size in host-interface units (`f32` bit
    /// patterns, default zero for automatic sizing) and an optional colormap
    /// (default: the current one).
    pub fn plot(
        &self,
        _scope: &PlotToken,
        scale_min: u64,
        scale_max: u64,
        size: Option<(u32, u32)>,
        colormap: Option<Colormap>,
    ) -> (r: ColormapScaleDraw)
        ensures
            r.label@ == self.label@,
            r.scale_min == scale_min,
            r.scale_max == scale_max,
            r.size_x == (match size {
                Some(s) => s.0,
                None => 0u32,
            }),
            r.size_y == (match size {
                Some(s) => s.1,
                None => 0u32,
            }),
            r.fmt@ == (match self.fmt {
                Some(f) => f@,
                None => "%g"@,
            }),
            r.flags == self.scale_flags,
            r.cmap == (match colormap {
                Some(cm) => cm.spec_index(),
                None => IMPLOT_AUTO,
            }),
    {
        let sz: (u32, u32) = match size {
            Some(s) => s,
            None => (0, 0),
        };
        let fmt: String = match &self.fmt {
            Some(f) => f.as_str().to_owned(),
            None => "%g".to_owned(),
        };
        let cmap: i32 = match colormap {
            Some(cm) => cm.to_index(),
            None => IMPLOT_AUTO,
        };
        ColormapScaleDraw {
            label: self.label.as_str().to_owned(),
            scale_min,
            scale_max,
            size_x: sz.0,
            size_y: sz.1,
            fmt,
            flags: self.scale_flags,
            cmap,
        }
    }
}

} // verus!
