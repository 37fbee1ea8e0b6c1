//! Verified core of a binding to an immediate-mode plotting library.
//!
//! The wrapped native library keeps process-global mutable state: a single
//! plotting context, a single "current plot" slot, and three style stacks
//! (colormap, style color, style variable) that must be pushed and popped in
//! strict LIFO order. Violating that discipline corrupts the native state for
//! the rest of the process.
//!
//! This crate models that state with plain values and proves the begin/end
//! and push/pop discipline over the model: which pops are accepted, what the
//! stacks hold afterwards, when a plot scope exists, and what every drawing
//! call would hand to the native library. The raw foreign calls themselves
//! (all of which take raw pointers and floating-point data) live in a thin
//! unverified shell around this crate; that shell consults the functions here
//! for every decision and forwards the values they produce.
//!
//! Floating-point quantities are carried as their IEEE 754 bit patterns
//! (`u32` for single precision, `u64` for double precision). The logic in
//! this crate never does float arithmetic; it only stores, compares (by the
//! documented total order on bit patterns) and forwards these values.

use vstd::prelude::*;
use vstd::string::*;

pub mod context;
pub mod naming;
pub mod plot;
pub mod plot_elements;

pub use context::Context;
pub use plot::{
    AnnotationDraw, AxisChoice, AxisFormat, AxisLimitSpecification, AxisScale, AxisSetup, Plot,
    PlotCond, PlotLocation, PlotToken, SetupCmd,
};
pub use plot_elements::{
    BarsDraw, ColormapScaleDraw, HeatmapDraw, HistogramDraw, PieDraw, PlotBars, PlotBin,
    PlotBinMethod, PlotColormap, PlotHeatmap, PlotHistogram, PlotLine, PlotPieChart, PlotScatter,
    PlotShaded, PlotStairs, PlotStems, PlotText, SeriesDraw, ShadedDraw, StemsDraw, TextDraw,
};

verus! {

/// A closed numeric range, both ends carried as `f64` bit patterns.
#[derive(Clone, Copy, Debug, PartialEq, Eq, Structural)]
pub struct PlotRange {
    /// Lower end, as an `f64` bit pattern.
    pub min: u64,
    /// Upper end, as an `f64` bit pattern.
    pub max: u64,
}

/// A point in plot coordinates, both components carried as `f64` bit
/// patterns.
#[derive(Clone, Copy, Debug, PartialEq, Eq, Structural)]
pub struct PlotPoint {
    /// Horizontal component, as an `f64` bit pattern.
    pub x: u64,
    /// Vertical component, as an `f64` bit pattern.
    pub y: u64,
}

/// The string holds no NUL character, so it can cross into the native
/// library as a C string without truncation. Label and format strings are
/// required to satisfy this at the point of construction.
pub open spec fn str_no_nul(s: Seq<char>) -> bool {
    forall|i: int| 0 <= i < s.len() ==> s[i] != '\0'
}

/// Runtime check for [`str_no_nul`], for callers outside the verified world
/// that must reject a string before handing it to a constructor.
pub fn contains_nul(s: &str) -> (r: bool)
    ensures
        r == !str_no_nul(s@),
{
    let n: usize = s.unicode_len();
    let mut i: usize = 0;
    while i < n
        invariant
            i <= n,
            n == s@.len(),
            forall|m: int| 0 <= m < i ==> s@[m] != '\0',
        decreases n - i,
    {
        if s.get_char(i) == '\0' {
            return true;
        }
        i = i + 1;
    }
    false
}

/// Why a pop was rejected instead of being forwarded to the native stack.
#[derive(Clone, Copy, Debug, PartialEq, Eq, Structural)]
pub enum StackError {
    /// The stack has no live entries: more pops than pushes were attempted.
    Empty,
    /// The token does not belong to the most recent unpopped entry of its
    /// stack, so popping it would release someone else's entry.
    NotOnTop,
}

/// A colormap preset shipped with the native library, identified by the
/// index the native header assigns to it.
#[derive(Clone, Copy, Debug, PartialEq, Eq, Structural)]
pub enum ColormapPreset {
    Deep,
    Dark,
    Pastel,
    Paired,
    Viridis,
    Plasma,
    Hot,
    Cool,
    Pink,
    Jet,
    Twilight,
    RdBu,
    BrBG,
    PiYG,
    Spectral,
    Greys,
}

impl ColormapPreset {
    /// The index the native header assigns to this preset.
    pub open spec fn spec_index(self) -> i32 {
        match self {
            ColormapPreset::Deep => 0,
            ColormapPreset::Dark => 1,
            ColormapPreset::Pastel => 2,
            ColormapPreset::Paired => 3,
            ColormapPreset::Viridis => 4,
            ColormapPreset::Plasma => 5,
            ColormapPreset::Hot => 6,
            ColormapPreset::Cool => 7,
            ColormapPreset::Pink => 8,
            ColormapPreset::Jet => 9,
            ColormapPreset::Twilight => 10,
            ColormapPreset::RdBu => 11,
            ColormapPreset::BrBG => 12,
            ColormapPreset::PiYG => 13,
            ColormapPreset::Spectral => 14,
            ColormapPreset::Greys => 15,
        }
    }

    /// Index of the preset as the native library numbers its built-in maps.
    pub fn index(self) -> (r: i32)
        ensures
            r == self.spec_index(),
    {
        match self {
            ColormapPreset::Deep => 0,
            ColormapPreset::Dark => 1,
            ColormapPreset::Pastel => 2,
            ColormapPreset::Paired => 3,
            ColormapPreset::Viridis => 4,
            ColormapPreset::Plasma => 5,
            ColormapPreset::Hot => 6,
            ColormapPreset::Cool => 7,
            ColormapPreset::Pink => 8,
            ColormapPreset::Jet => 9,
            ColormapPreset::Twilight => 10,
            ColormapPreset::RdBu => 11,
            ColormapPreset::BrBG => 12,
            ColormapPreset::PiYG => 13,
            ColormapPreset::Spectral => 14,
            ColormapPreset::Greys => 15,
        }
    }
}

/// Choice of colormap: a built-in preset or a custom map registered at
/// runtime under a native index.
#[derive(Clone, Copy, Debug, PartialEq, Eq, Structural)]
pub enum Colormap {
    Preset(ColormapPreset),
    Custom(i32),
}

impl Colormap {
    /// The native index this colormap selects.
    pub open spec fn spec_index(self) -> i32 {
        match self {
            Colormap::Preset(preset) => preset.spec_index(),
            Colormap::Custom(custom) => custom,
        }
    }

    /// Resolve the colormap to the index the native calls expect.
    pub fn to_index(self) -> (r: i32)
        ensures
            r == self.spec_index(),
    {
        match self {
            Colormap::Preset(preset) => preset.index(),
            Colormap::Custom(custom) => custom,
        }
    }
}

/// Interpret a colormap lookup result from the native library: a
/// non-negative index names a registered map, a negative one means
/// "not found".
pub fn colormap_from_lookup(index: i32) -> (r: Option<Colormap>)
    ensures
        index >= 0 ==> r == Some(Colormap::Custom(index)),
        index < 0 ==> r is None,
{
    if index >= 0 {
        Some(Colormap::Custom(index))
    } else {
        None
    }
}

/// A style setting that can be pushed onto the native style-variable stack,
/// identified by the index the native header assigns to it.
#[derive(Clone, Copy, Debug, PartialEq, Eq, Structural)]
pub enum StyleVar {
    LineWeight,
    Marker,
    MarkerSize,
    MarkerWeight,
    FillAlpha,
    ErrorBarSize,
    ErrorBarWeight,
    DigitalBitHeight,
    DigitalBitGap,
    PlotBorderSize,
    MinorAlpha,
    MajorTickLen,
    MinorTickLen,
    MajorTickSize,
    MinorTickSize,
    MajorGridSize,
    MinorGridSize,
    PlotPadding,
    LabelPadding,
    LegendPadding,
    LegendInnerPadding,
    LegendSpacing,
    MousePosPadding,
    AnnotationPadding,
    FitPadding,
    PlotDefaultSize,
    PlotMinSize,
}

impl StyleVar {
    /// The index the native header assigns to this style variable.
    pub open spec fn spec_index(self) -> i32 {
        match self {
            StyleVar::LineWeight => 0,
            StyleVar::Marker => 1,
            StyleVar::MarkerSize => 2,
            StyleVar::MarkerWeight => 3,
            StyleVar::FillAlpha => 4,
            StyleVar::ErrorBarSize => 5,
            StyleVar::ErrorBarWeight => 6,
            StyleVar::DigitalBitHeight => 7,
            StyleVar::DigitalBitGap => 8,
            StyleVar::PlotBorderSize => 9,
            StyleVar::MinorAlpha => 10,
            StyleVar::MajorTickLen => 11,
            StyleVar::MinorTickLen => 12,
            StyleVar::MajorTickSize => 13,
            StyleVar::MinorTickSize => 14,
            StyleVar::MajorGridSize => 15,
            StyleVar::MinorGridSize => 16,
            StyleVar::PlotPadding => 17,
            StyleVar::LabelPadding => 18,
            StyleVar::LegendPadding => 19,
            StyleVar::LegendInnerPadding => 20,
            StyleVar::LegendSpacing => 21,
            StyleVar::MousePosPadding => 22,
            StyleVar::AnnotationPadding => 23,
            StyleVar::FitPadding => 24,
            StyleVar::PlotDefaultSize => 25,
            StyleVar::PlotMinSize => 26,
        }
    }

    /// Index of the style variable as the native calls expect it.
    pub fn index(self) -> (r: i32)
        ensures
            r == self.spec_index(),
    {
        match self {
            StyleVar::LineWeight => 0,
            StyleVar::Marker => 1,
            StyleVar::MarkerSize => 2,
            StyleVar::MarkerWeight => 3,
            StyleVar::FillAlpha => 4,
            StyleVar::ErrorBarSize => 5,
            StyleVar::ErrorBarWeight => 6,
            StyleVar::DigitalBitHeight => 7,
            StyleVar::DigitalBitGap => 8,
            StyleVar::PlotBorderSize => 9,
            StyleVar::MinorAlpha => 10,
            StyleVar::MajorTickLen => 11,
            StyleVar::MinorTickLen => 12,
            StyleVar::MajorTickSize => 13,
            StyleVar::MinorTickSize => 14,
            StyleVar::MajorGridSize => 15,
            StyleVar::MinorGridSize => 16,
            StyleVar::PlotPadding => 17,
            StyleVar::LabelPadding => 18,
            StyleVar::LegendPadding => 19,
            StyleVar::LegendInnerPadding => 20,
            StyleVar::LegendSpacing => 21,
            StyleVar::MousePosPadding => 22,
            StyleVar::AnnotationPadding => 23,
            StyleVar::FitPadding => 24,
            StyleVar::PlotDefaultSize => 25,
            StyleVar::PlotMinSize => 26,
        }
    }
}

/// A plot element that can be given a color on the native style-color
/// stack, identified by the index the native header assigns to it.
#[derive(Clone, Copy, Debug, PartialEq, Eq, Structural)]
pub enum PlotColorElement {
    Line,
    Fill,
    MarkerOutline,
    MarkerFill,
    ErrorBar,
    FrameBg,
    PlotBg,
    PlotBorder,
    LegendBg,
    LegendBorder,
    LegendText,
    TitleText,
    InlayText,
    AxisText,
    AxisGrid,
    AxisTick,
    AxisBg,
    AxisBgHovered,
    AxisBgActive,
    Selection,
    Crosshairs,
}

impl PlotColorElement {
    /// The index the native header assigns to this colorable element.
    pub open spec fn spec_index(self) -> i32 {
        match self {
            PlotColorElement::Line => 0,
            PlotColorElement::Fill => 1,
            PlotColorElement::MarkerOutline => 2,
            PlotColorElement::MarkerFill => 3,
            PlotColorElement::ErrorBar => 4,
            PlotColorElement::FrameBg => 5,
            PlotColorElement::PlotBg => 6,
            PlotColorElement::PlotBorder => 7,
            PlotColorElement::LegendBg => 8,
            PlotColorElement::LegendBorder => 9,
            PlotColorElement::LegendText => 10,
            PlotColorElement::TitleText => 11,
            PlotColorElement::InlayText => 12,
            PlotColorElement::AxisText => 13,
            PlotColorElement::AxisGrid => 14,
            PlotColorElement::AxisTick => 15,
            PlotColorElement::AxisBg => 16,
            PlotColorElement::AxisBgHovered => 17,
            PlotColorElement::AxisBgActive => 18,
            PlotColorElement::Selection => 19,
            PlotColorElement::Crosshairs => 20,
        }
    }

    /// Index of the element as the native calls expect it.
    pub fn index(self) -> (r: i32)
        ensures
            r == self.spec_index(),
    {
        match self {
            PlotColorElement::Line => 0,
            PlotColorElement::Fill => 1,
            PlotColorElement::MarkerOutline => 2,
            PlotColorElement::MarkerFill => 3,
            PlotColorElement::ErrorBar => 4,
            PlotColorElement::FrameBg => 5,
            PlotColorElement::PlotBg => 6,
            PlotColorElement::PlotBorder => 7,
            PlotColorElement::LegendBg => 8,
            PlotColorElement::LegendBorder => 9,
            PlotColorElement::LegendText => 10,
            PlotColorElement::TitleText => 11,
            PlotColorElement::InlayText => 12,
            PlotColorElement::AxisText => 13,
            PlotColorElement::AxisGrid => 14,
            PlotColorElement::AxisTick => 15,
            PlotColorElement::AxisBg => 16,
            PlotColorElement::AxisBgHovered => 17,
            PlotColorElement::AxisBgActive => 18,
            PlotColorElement::Selection => 19,
            PlotColorElement::Crosshairs => 20,
        }
    }
}

/// One live entry of the colormap stack: the native index that was pushed.
pub type ColormapEntry = i32;

/// One live entry of the style-color stack.
#[derive(Clone, Copy, Debug, PartialEq, Eq, Structural)]
pub struct StyleColorEntry {
    /// Index of the colored element.
    pub element: i32,
    /// Red component, as an `f32` bit pattern.
    pub red: u32,
    /// Green component, as an `f32` bit pattern.
    pub green: u32,
    /// Blue component, as an `f32` bit pattern.
    pub blue: u32,
    /// Alpha component, as an `f32` bit pattern.
    pub alpha: u32,
}

/// The value pushed with a style variable.
#[derive(Clone, Copy, Debug, PartialEq, Eq, Structural)]
pub enum StyleVarValue {
    /// A single-precision value, as its bit pattern.
    F32(u32),
    /// An integer value.
    I32(i32),
    /// A two-component single-precision vector, as bit patterns.
    Vec2(u32, u32),
}

/// One live entry of the style-variable stack.
#[derive(Clone, Copy, Debug, PartialEq, Eq, Structural)]
pub struct StyleVarEntry {
    /// Index of the style variable.
    pub element: i32,
    /// The value it was set to.
    pub value: StyleVarValue,
}

/// Receipt for one push onto the colormap stack, redeemable exactly once.
///
/// The type is deliberately neither `Clone` nor `Copy`, and its field is
/// private: the only way to obtain one is to push, and popping consumes it.
#[derive(Debug)]
pub struct ColormapToken {
    pub(crate) id: u64,
}

impl ColormapToken {
    /// Position of this token's entry on the colormap stack.
    pub closed spec fn spec_id(self) -> u64 {
        self.id
    }
}

/// Receipt for one push onto the style-color stack, redeemable exactly once.
#[derive(Debug)]
pub struct StyleColorToken {
    pub(crate) id: u64,
}

impl StyleColorToken {
    /// Position of this token's entry on the style-color stack.
    pub closed spec fn spec_id(self) -> u64 {
        self.id
    }
}

/// Receipt for one push onto the style-variable stack, redeemable exactly
/// once.
#[derive(Debug)]
pub struct StyleVarToken {
    pub(crate) id: u64,
}

impl StyleVarToken {
    /// Position of this token's entry on the style-variable stack.
    pub closed spec fn spec_id(self) -> u64 {
        self.id
    }
}

/// A pop with token position `token_id` is accepted on a stack of depth
/// `depth` exactly when the stack is non-empty and the token names its top
/// entry. Every pop of every stack kind decides by this predicate.
pub open spec fn pop_allowed(depth: nat, token_id: u64) -> bool {
    depth > 0 && token_id == depth - 1
}

/// Per-frame handle for plotting. It mirrors the native library's mutable
/// frame state: the three style stacks and whether a plot scope is open.
///
/// Every mutating operation states exactly how the mirrored state changes,
/// so the native stacks and the model cannot drift apart as long as each
/// accepted operation is forwarded to the native library exactly once.
pub struct PlotUi {
    pub(crate) colormap_stack: Vec<ColormapEntry>,
    pub(crate) style_color_stack: Vec<StyleColorEntry>,
    pub(crate) style_var_stack: Vec<StyleVarEntry>,
    pub(crate) plot_open: bool,
}

impl PlotUi {
    /// The live entries of the colormap stack, bottom first.
    pub closed spec fn colormaps(self) -> Seq<ColormapEntry> {
        self.colormap_stack@
    }

    /// The live entries of the style-color stack, bottom first.
    pub closed spec fn style_colors(self) -> Seq<StyleColorEntry> {
        self.style_color_stack@
    }

    /// The live entries of the style-variable stack, bottom first.
    pub closed spec fn style_vars(self) -> Seq<StyleVarEntry> {
        self.style_var_stack@
    }

    /// Whether a plot scope is currently open.
    pub closed spec fn is_plot_open(self) -> bool {
        self.plot_open
    }

    /// Whether a plot scope is currently open, as a runtime value: callers
    /// outside the verified world test this before opening a plot.
    pub fn has_open_plot(&self) -> (r: bool)
        ensures
            r == self.is_plot_open(),
    {
        self.plot_open
    }

    /// A frame handle with empty stacks and no open plot.
    pub(crate) fn new_frame() -> (ui: PlotUi)
        ensures
            ui.colormaps() =~= Seq::<ColormapEntry>::empty(),
            ui.style_colors() =~= Seq::<StyleColorEntry>::empty(),
            ui.style_vars() =~= Seq::<StyleVarEntry>::empty(),
            !ui.is_plot_open(),
    {
        PlotUi {
            colormap_stack: Vec::new(),
            style_color_stack: Vec::new(),
            style_var_stack: Vec::new(),
            plot_open: false,
        }
    }

    /// Switch to a colormap preset. The push itself always succeeds; the
    /// returned token must later be handed to [`PlotUi::pop_colormap`].
    pub fn push_colormap_from_preset(&mut self, colormap: ColormapPreset) -> (t: ColormapToken)
        ensures
            final(self).colormaps() == old(self).colormaps().push(colormap.spec_index()),
            t.spec_id() == old(self).colormaps().len(),
            final(self).style_colors() == old(self).style_colors(),
            final(self).style_vars() == old(self).style_vars(),
            final(self).is_plot_open() == old(self).is_plot_open(),
    {
        self.push_colormap(Colormap::Preset(colormap))
    }

    /// Switch to a different colormap, preset or custom.
    pub fn push_colormap(&mut self, colormap: Colormap) -> (t: ColormapToken)
        ensures
            final(self).colormaps() == old(self).colormaps().push(colormap.spec_index()),
            t.spec_id() == old(self).colormaps().len(),
            final(self).style_colors() == old(self).style_colors(),
            final(self).style_vars() == old(self).style_vars(),
            final(self).is_plot_open() == old(self).is_plot_open(),
    {
        let id: u64 = self.colormap_stack.len() as u64;
        let index: i32 = colormap.to_index();
        self.colormap_stack.push(index);
        ColormapToken { id }
    }

    /// Record a push of a colormap that the native library resolved by name
    /// to `index`.
    pub fn push_colormap_from_name(&mut self, index: i32) -> (t: ColormapToken)
        ensures
            final(self).colormaps() == old(self).colormaps().push(index),
            t.spec_id() == old(self).colormaps().len(),
            final(self).style_colors() == old(self).style_colors(),
            final(self).style_vars() == old(self).style_vars(),
            final(self).is_plot_open() == old(self).is_plot_open(),
    {
        self.push_colormap(Colormap::Custom(index))
    }

    /// Pop the colormap stack. Accepted exactly when the token names the
    /// top entry; a rejected pop leaves the model (and must leave the native
    /// stack) untouched.
    pub fn pop_colormap(&mut self, t: ColormapToken) -> (r: Result<(), StackError>)
        ensures
            r is Ok <==> pop_allowed(old(self).colormaps().len(), t.spec_id()),
            r is Ok ==> final(self).colormaps() == old(self).colormaps().drop_last(),
            r is Err ==> *final(self) == *old(self),
            r == Err::<(), StackError>(StackError::Empty) <==> old(self).colormaps().len() == 0,
            final(self).style_colors() == old(self).style_colors(),
            final(self).style_vars() == old(self).style_vars(),
            final(self).is_plot_open() == old(self).is_plot_open(),
    {
        let depth: usize = self.colormap_stack.len();
        if depth == 0 {
            Err(StackError::Empty)
        } else if t.id != (depth - 1) as u64 {
            Err(StackError::NotOnTop)
        } else {
            self.colormap_stack.pop();
            Ok(())
        }
    }

    /// Push a single-precision style variable (given as its bit pattern)
    /// onto the style-variable stack.
    pub fn push_style_var_f32(&mut self, element: &StyleVar, value_bits: u32) -> (t: StyleVarToken)
        ensures
            final(self).style_vars() == old(self).style_vars().push(
                StyleVarEntry { element: element.spec_index(), value: StyleVarValue::F32(value_bits) },
            ),
            t.spec_id() == old(self).style_vars().len(),
            final(self).colormaps() == old(self).colormaps(),
            final(self).style_colors() == old(self).style_colors(),
            final(self).is_plot_open() == old(self).is_plot_open(),
    {
        let id: u64 = self.style_var_stack.len() as u64;
        let entry = StyleVarEntry { element: element.index(), value: StyleVarValue::F32(value_bits) };
        self.style_var_stack.push(entry);
        StyleVarToken { id }
    }

    /// Push an integer style variable onto the style-variable stack.
    pub fn push_style_var_i32(&mut self, element: &StyleVar, value: i32) -> (t: StyleVarToken)
        ensures
            final(self).style_vars() == old(self).style_vars().push(
                StyleVarEntry { element: element.spec_index(), value: StyleVarValue::I32(value) },
            ),
            t.spec_id() == old(self).style_vars().len(),
            final(self).colormaps() == old(self).colormaps(),
            final(self).style_colors() == old(self).style_colors(),
            final(self).is_plot_open() == old(self).is_plot_open(),
    {
        let id: u64 = self.style_var_stack.len() as u64;
        let entry = StyleVarEntry { element: element.index(), value: StyleVarValue::I32(value) };
        self.style_var_stack.push(entry);
        StyleVarToken { id }
    }

    /// Push a two-component style variable (components given as `f32` bit
    /// patterns) onto the style-variable stack.
    pub fn push_style_var_imvec2(&mut self, element: &StyleVar, x_bits: u32, y_bits: u32) -> (t:
        StyleVarToken)
        ensures
            final(self).style_vars() == old(self).style_vars().push(
                StyleVarEntry {
                    element: element.spec_index(),
                    value: StyleVarValue::Vec2(x_bits, y_bits),
                },
            ),
            t.spec_id() == old(self).style_vars().len(),
            final(self).colormaps() == old(self).colormaps(),
            final(self).style_colors() == old(self).style_colors(),
            final(self).is_plot_open() == old(self).is_plot_open(),
    {
        let id: u64 = self.style_var_stack.len() as u64;
        let entry = StyleVarEntry {
            element: element.index(),
            value: StyleVarValue::Vec2(x_bits, y_bits),
        };
        self.style_var_stack.push(entry);
        StyleVarToken { id }
    }

    /// Pop the style-variable stack; same acceptance rule as
    /// [`PlotUi::pop_colormap`].
    pub fn pop_style_var(&mut self, t: StyleVarToken) -> (r: Result<(), StackError>)
        ensures
            r is Ok <==> pop_allowed(old(self).style_vars().len(), t.spec_id()),
            r is Ok ==> final(self).style_vars() == old(self).style_vars().drop_last(),
            r is Err ==> *final(self) == *old(self),
            r == Err::<(), StackError>(StackError::Empty) <==> old(self).style_vars().len() == 0,
            final(self).colormaps() == old(self).colormaps(),
            final(self).style_colors() == old(self).style_colors(),
            final(self).is_plot_open() == old(self).is_plot_open(),
    {
        let depth: usize = self.style_var_stack.len();
        if depth == 0 {
            Err(StackError::Empty)
        } else if t.id != (depth - 1) as u64 {
            Err(StackError::NotOnTop)
        } else {
            self.style_var_stack.pop();
            Ok(())
        }
    }

    /// Push a style color (components given as `f32` bit patterns, intended
    /// range 0.0 to 1.0) onto the style-color stack.
    pub fn push_style_color(
        &mut self,
        element: &PlotColorElement,
        red: u32,
        green: u32,
        blue: u32,
        alpha: u32,
    ) -> (t: StyleColorToken)
        ensures
            final(self).style_colors() == old(self).style_colors().push(
                StyleColorEntry { element: element.spec_index(), red, green, blue, alpha },
            ),
            t.spec_id() == old(self).style_colors().len(),
            final(self).colormaps() == old(self).colormaps(),
            final(self).style_vars() == old(self).style_vars(),
            final(self).is_plot_open() == old(self).is_plot_open(),
    {
        let id: u64 = self.style_color_stack.len() as u64;
        let entry = StyleColorEntry { element: element.index(), red, green, blue, alpha };
        self.style_color_stack.push(entry);
        StyleColorToken { id }
    }

    /// Pop the style-color stack; same acceptance rule as
    /// [`PlotUi::pop_colormap`].
    pub fn pop_style_color(&mut self, t: StyleColorToken) -> (r: Result<(), StackError>)
        ensures
            r is Ok <==> pop_allowed(old(self).style_colors().len(), t.spec_id()),
            r is Ok ==> final(self).style_colors() == old(self).style_colors().drop_last(),
            r is Err ==> *final(self) == *old(self),
            r == Err::<(), StackError>(StackError::Empty) <==> old(self).style_colors().len() == 0,
            final(self).colormaps() == old(self).colormaps(),
            final(self).style_vars() == old(self).style_vars(),
            final(self).is_plot_open() == old(self).is_plot_open(),
    {
        let depth: usize = self.style_color_stack.len();
        if depth == 0 {
            Err(StackError::Empty)
        } else if t.id != (depth - 1) as u64 {
            Err(StackError::NotOnTop)
        } else {
            self.style_color_stack.pop();
            Ok(())
        }
    }
}

/// One attempted operation on a single stack, for stating the stack laws:
/// a push, or a pop carrying the position its token names.
#[derive(Clone, Copy, Debug, PartialEq, Eq, Structural)]
pub enum StackOp {
    Push,
    Pop(u64),
}

/// Number of pushes in a sequence of attempted operations.
pub open spec fn count_pushes(ops: Seq<StackOp>) -> nat
    decreases ops.len(),
{
    if ops.len() == 0 {
        0
    } else {
        (if ops[0] is Push {
            1nat
        } else {
            0nat
        }) + count_pushes(ops.skip(1))
    }
}

/// Stack depth after running the operations from depth `depth`, counting
/// only the pops that [`pop_allowed`] accepts.
pub open spec fn depth_after(ops: Seq<StackOp>, depth: nat) -> nat
    decreases ops.len(),
{
    if ops.len() == 0 {
        depth
    } else {
        let next = match ops[0] {
            StackOp::Push => depth + 1,
            StackOp::Pop(id) => if pop_allowed(depth, id) {
                (depth - 1) as nat
            } else {
                depth
            },
        };
        depth_after(ops.skip(1), next)
    }
}

/// Number of accepted pops when running the operations from depth `depth`.
pub open spec fn accepted_pops(ops: Seq<StackOp>, depth: nat) -> nat
    decreases ops.len(),
{
    if ops.len() == 0 {
        0
    } else {
        match ops[0] {
            StackOp::Push => accepted_pops(ops.skip(1), depth + 1),
            StackOp::Pop(id) => if pop_allowed(depth, id) {
                1 + accepted_pops(ops.skip(1), (depth - 1) as nat)
            } else {
                accepted_pops(ops.skip(1), depth)
            },
        }
    }
}

/// Law: however pushes and pop attempts are interleaved, the pops that the
/// acceptance rule lets through never outnumber the entries available, so
/// popping more times than pushed is always rejected rather than forwarded.
/// The pop methods of [`PlotUi`] accept exactly by [`pop_allowed`], so the
/// law carries over to any call sequence on any one of the three stacks.
pub proof fn lemma_accepted_pops_bounded(ops: Seq<StackOp>, depth: nat)
    ensures
        accepted_pops(ops, depth) <= depth + count_pushes(ops),
        depth_after(ops, depth) == depth + count_pushes(ops) - accepted_pops(ops, depth),
    decreases ops.len(),
{
    if ops.len() == 0 {
    } else {
        match ops[0] {
            StackOp::Push => {
                lemma_accepted_pops_bounded(ops.skip(1), depth + 1);
            },
            StackOp::Pop(id) => {
                if pop_allowed(depth, id) {
                    lemma_accepted_pops_bounded(ops.skip(1), (depth - 1) as nat);
                } else {
                    lemma_accepted_pops_bounded(ops.skip(1), depth);
                }
            },
        }
    }
}

/// Law: on an empty stack every pop attempt is rejected, whatever position
/// its token claims.
pub proof fn lemma_pop_on_empty_rejected(token_id: u64)
    ensures
        !pop_allowed(0, token_id),
{
}

/// Law: a pop whose token does not name the top entry is rejected, so
/// out-of-order release of stack entries is always detected.
pub proof fn lemma_pop_out_of_order_rejected(depth: nat, token_id: u64)
    requires
        token_id != depth - 1 || depth == 0,
    ensures
        !pop_allowed(depth, token_id),
{
}

} // verus!
