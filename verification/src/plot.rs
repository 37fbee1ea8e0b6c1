//! Plot descriptors and the begin/end scope protocol.
//!
//! A [`Plot`] is a value object describing one plot's configuration: title,
//! size, per-axis labels, limits, scales, flags, ticks and legend placement.
//! Opening the plot turns the descriptor into an ordered sequence of setup
//! commands ([`SetupCmd`]) for the unverified shell to forward, and into a
//! [`PlotToken`] that witnesses the open scope. Drawing primitives demand a
//! token, so no drawing call can be produced while no scope exists.

use vstd::prelude::*;
use vstd::string::*;

use crate::{str_no_nul, PlotRange, PlotUi};

verus! {

/// Number of axes a plot can have: three X axes followed by three Y axes.
pub const NUMBER_OF_AXES: usize = 6;

/// Sentinel index meaning "let the native library choose".
pub const IMPLOT_AUTO: i32 = -1;

/// Choice of axis, numbered as the native header numbers them.
#[derive(Clone, Copy, Debug, PartialEq, Eq, Structural)]
pub enum AxisChoice {
    X1,
    X2,
    X3,
    Y1,
    Y2,
    Y3,
}

impl AxisChoice {
    /// The slot this axis occupies, as the native header numbers them.
    pub open spec fn spec_index(self) -> usize {
        match self {
            AxisChoice::X1 => 0,
            AxisChoice::X2 => 1,
            AxisChoice::X3 => 2,
            AxisChoice::Y1 => 3,
            AxisChoice::Y2 => 4,
            AxisChoice::Y3 => 5,
        }
    }

    /// Index of the axis as the native calls expect it.
    pub fn index(self) -> (r: usize)
        ensures
            r == self.spec_index(),
            r < NUMBER_OF_AXES,
    {
        match self {
            AxisChoice::X1 => 0,
            AxisChoice::X2 => 1,
            AxisChoice::X3 => 2,
            AxisChoice::Y1 => 3,
            AxisChoice::Y2 => 4,
            AxisChoice::Y3 => 5,
        }
    }
}

/// Map an optional axis choice to the index a query call expects:
/// the axis's own index, or [`IMPLOT_AUTO`] for "the current axis".
pub fn axis_index_or_auto(axis: Option<AxisChoice>) -> (r: i32)
    ensures
        axis matches Some(a) ==> r == a.spec_index(),
        axis is None ==> r == IMPLOT_AUTO,
{
    match axis {
        Some(a) => a.index() as i32,
        None => IMPLOT_AUTO,
    }
}

/// Transformation applied to an axis, numbered as the native header numbers
/// the scale kinds.
#[derive(Clone, Copy, Debug, PartialEq, Eq, Structural)]
pub enum AxisScale {
    Linear,
    Time,
    Log10,
    SymLog,
}

impl AxisScale {
    /// The code the native header assigns to this scale.
    pub open spec fn spec_code(self) -> i32 {
        match self {
            AxisScale::Linear => 0,
            AxisScale::Time => 1,
            AxisScale::Log10 => 2,
            AxisScale::SymLog => 3,
        }
    }

    /// Code of the scale as the native calls expect it.
    pub fn code(self) -> (r: i32)
        ensures
            r == self.spec_code(),
    {
        match self {
            AxisScale::Linear => 0,
            AxisScale::Time => 1,
            AxisScale::Log10 => 2,
            AxisScale::SymLog => 3,
        }
    }
}

/// When a one-shot limit assignment applies: on every frame, or only on the
/// first one. Numbered as the native header numbers its conditions. The
/// native header also names a zero "no condition" code; it stands for the
/// absence of a request, which this binding expresses by not storing limits
/// for the axis at all, so it needs no variant here.
#[derive(Clone, Copy, Debug, PartialEq, Eq, Structural)]
pub enum PlotCond {
    Always,
    Once,
}

impl PlotCond {
    /// The code the native header assigns to this condition.
    pub open spec fn spec_code(self) -> i32 {
        match self {
            PlotCond::Always => 1,
            PlotCond::Once => 2,
        }
    }

    /// Code of the condition as the native calls expect it.
    pub fn code(self) -> (r: i32)
        ensures
            r == self.spec_code(),
    {
        match self {
            PlotCond::Always => 1,
            PlotCond::Once => 2,
        }
    }
}

/// Placement of an item (such as the legend) on the plot. The native codes
/// combine a north/south bit with a west/east bit.
#[derive(Clone, Copy, Debug, PartialEq, Eq, Structural)]
pub enum PlotLocation {
    Center,
    North,
    South,
    West,
    East,
    NorthWest,
    NorthEast,
    SouthWest,
    SouthEast,
}

impl PlotLocation {
    /// The code the native header assigns to this location.
    pub open spec fn spec_code(self) -> i32 {
        match self {
            PlotLocation::Center => 0,
            PlotLocation::North => 1,
            PlotLocation::South => 2,
            PlotLocation::West => 4,
            PlotLocation::East => 8,
            PlotLocation::NorthWest => 5,
            PlotLocation::NorthEast => 9,
            PlotLocation::SouthWest => 6,
            PlotLocation::SouthEast => 10,
        }
    }

    /// Code of the location as the native calls expect it.
    pub fn code(self) -> (r: i32)
        ensures
            r == self.spec_code(),
    {
        match self {
            PlotLocation::Center => 0,
            PlotLocation::North => 1,
            PlotLocation::South => 2,
            PlotLocation::West => 4,
            PlotLocation::East => 8,
            PlotLocation::NorthWest => 5,
            PlotLocation::NorthEast => 9,
            PlotLocation::SouthWest => 6,
            PlotLocation::SouthEast => 10,
        }
    }
}

/// How limits are assigned to one axis: directly with a condition, or linked
/// to a range shared with other plots. A linked range is named by a handle
/// that the shell resolves to the shared storage.
#[derive(Clone, Copy, Debug, PartialEq, Eq, Structural)]
pub enum AxisLimitSpecification {
    /// Direct limits, specified as values.
    Single(PlotRange, PlotCond),
    /// Limits linked to the shared range with this handle.
    Linked(u64),
}

/// Custom tick-text formatting for one axis: a fixed format string, or a
/// callback the shell registers under a handle and invokes per tick.
#[derive(Debug)]
pub enum AxisFormat {
    /// A printf-style format string.
    FormatString(String),
    /// Handle of a shell-side formatting callback.
    Callback(u64),
}

/// The format choice as spec data: the format string's characters, or the
/// callback handle.
pub ghost enum AxisFormatView {
    FormatString(Seq<char>),
    Callback(u64),
}

impl View for AxisFormat {
    type V = AxisFormatView;

    open spec fn view(&self) -> AxisFormatView {
        match self {
            AxisFormat::FormatString(s) => AxisFormatView::FormatString(s@),
            AxisFormat::Callback(cb) => AxisFormatView::Callback(*cb),
        }
    }
}

/// Configuration of one axis of a plot.
#[derive(Debug)]
pub struct AxisSetup {
    /// Whether the axis is shown and configured at all.
    pub enabled: bool,
    /// Axis label; `None` shows no label.
    pub label: Option<String>,
    /// Limits, if requested.
    pub limits: Option<AxisLimitSpecification>,
    /// Hard bounds for panning, as `f64` bit patterns `(min, max)`.
    pub limits_constraints: Option<(u64, u64)>,
    /// Hard bounds for zooming, as `f64` bit patterns `(min, max)`.
    pub zoom_constraints: Option<(u64, u64)>,
    /// Positions of custom ticks, as `f64` bit patterns.
    pub tick_positions: Option<Vec<u64>>,
    /// Texts of custom ticks, parallel to the positions.
    pub tick_labels: Option<Vec<String>>,
    /// Whether default ticks stay visible beside the custom ones.
    pub show_default_ticks: bool,
    /// Scale of the axis.
    pub scale: AxisScale,
    /// Axis flag bits, as the native header defines them.
    pub flags: u32,
    /// Custom tick-text formatting, if requested.
    pub format: Option<AxisFormat>,
}

/// The characters of an optional string.
pub open spec fn opt_str_view(o: Option<String>) -> Option<Seq<char>> {
    match o {
        Some(s) => Some(s@),
        None => None,
    }
}

/// The characters of an optional list of strings.
pub open spec fn opt_strs_view(o: Option<Vec<String>>) -> Option<Seq<Seq<char>>> {
    match o {
        Some(v) => Some(v.deep_view()),
        None => None,
    }
}

/// The contents of an optional list of values.
pub open spec fn opt_u64s_view(o: Option<Vec<u64>>) -> Option<Seq<u64>> {
    match o {
        Some(v) => Some(v@),
        None => None,
    }
}

/// The format choice of an optional [`AxisFormat`] as spec data.
pub open spec fn opt_format_view(o: Option<AxisFormat>) -> Option<AxisFormatView> {
    match o {
        Some(f) => Some(f@),
        None => None,
    }
}

/// Configuration of one axis as spec data: every stored collection replaced
/// by its contents.
pub ghost struct AxisSetupView {
    pub enabled: bool,
    pub label: Option<Seq<char>>,
    pub limits: Option<AxisLimitSpecification>,
    pub limits_constraints: Option<(u64, u64)>,
    pub zoom_constraints: Option<(u64, u64)>,
    pub tick_positions: Option<Seq<u64>>,
    pub tick_labels: Option<Seq<Seq<char>>>,
    pub show_default_ticks: bool,
    pub scale: AxisScale,
    pub flags: u32,
    pub format: Option<AxisFormatView>,
}

impl View for AxisSetup {
    type V = AxisSetupView;

    open spec fn view(&self) -> AxisSetupView {
        AxisSetupView {
            enabled: self.enabled,
            label: opt_str_view(self.label),
            limits: self.limits,
            limits_constraints: self.limits_constraints,
            zoom_constraints: self.zoom_constraints,
            tick_positions: opt_u64s_view(self.tick_positions),
            tick_labels: opt_strs_view(self.tick_labels),
            show_default_ticks: self.show_default_ticks,
            scale: self.scale,
            flags: self.flags,
            format: opt_format_view(self.format),
        }
    }
}

impl DeepView for AxisSetup {
    type V = AxisSetupView;

    open spec fn deep_view(&self) -> AxisSetupView {
        self.view()
    }
}

/// The configuration a fresh axis starts from: disabled (or enabled, for
/// the primary axes), unlabeled, linear, with nothing requested.
pub open spec fn default_axis_view(enabled: bool) -> AxisSetupView {
    AxisSetupView {
        enabled,
        label: None,
        limits: None,
        limits_constraints: None,
        zoom_constraints: None,
        tick_positions: None,
        tick_labels: None,
        show_default_ticks: false,
        scale: AxisScale::Linear,
        flags: 0,
        format: None,
    }
}

fn default_axis(enabled: bool) -> (a: AxisSetup)
    ensures
        a@ == default_axis_view(enabled),
{
    AxisSetup {
        enabled,
        label: None,
        limits: None,
        limits_constraints: None,
        zoom_constraints: None,
        tick_positions: None,
        tick_labels: None,
        show_default_ticks: false,
        scale: AxisScale::Linear,
        flags: 0,
        format: None,
    }
}

/// Default plot width, the bit pattern of 400.0 as `f32`.
pub const DEFAULT_PLOT_SIZE_X: u32 = 0x43C8_0000;

/// Default plot height, the bit pattern of 400.0 as `f32`.
pub const DEFAULT_PLOT_SIZE_Y: u32 = 0x43C8_0000;

/// Descriptor of one plot: everything applied between opening and the first
/// drawing call. Built with the `with_`-style setters and consumed by
/// [`Plot::begin`].
#[derive(Debug)]
pub struct Plot {
    /// Title, shown on top and used as the native identifier.
    pub title: String,
    /// Plot width in host-interface units, as an `f32` bit pattern.
    pub size_x: u32,
    /// Plot height in host-interface units, as an `f32` bit pattern.
    pub size_y: u32,
    /// Per-axis configuration; always [`NUMBER_OF_AXES`] entries.
    pub axes: Vec<AxisSetup>,
    /// Legend placement and legend flag bits, if configured.
    pub legend: Option<(PlotLocation, u32)>,
    /// Plot flag bits, as the native header defines them.
    pub flags: u32,
}

impl Plot {
    /// The descriptor always carries one configuration slot per axis.
    pub open spec fn wf(self) -> bool {
        self.axes@.len() == NUMBER_OF_AXES
    }

    /// Spec view of the per-axis configurations.
    pub open spec fn axes_view(self) -> Seq<AxisSetupView> {
        self.axes.deep_view()
    }

    /// Create a new plot with the default size, the primary X and Y axes
    /// enabled, and everything else unset. Does not draw anything yet.
    ///
    /// The title must not contain NUL characters, since the native library
    /// receives it as a C string.
    pub fn new(title: &str) -> (r: Plot)
        requires
            str_no_nul(title@),
        ensures
            r.wf(),
            r.title@ == title@,
            r.size_x == DEFAULT_PLOT_SIZE_X,
            r.size_y == DEFAULT_PLOT_SIZE_Y,
            r.legend is None,
            r.flags == 0,
            forall|i: int|
                0 <= i < NUMBER_OF_AXES ==> r.axes_view()[i] == default_axis_view(i == 0 || i == 3),
    {
        let mut axes: Vec<AxisSetup> = Vec::new();
        axes.push(default_axis(true));
        axes.push(default_axis(false));
        axes.push(default_axis(false));
        axes.push(default_axis(true));
        axes.push(default_axis(false));
        axes.push(default_axis(false));
        let r = Plot {
            title: title.to_owned(),
            size_x: DEFAULT_PLOT_SIZE_X,
            size_y: DEFAULT_PLOT_SIZE_Y,
            axes,
            legend: None,
            flags: 0,
        };
        proof {
            assert forall|i: int| 0 <= i < NUMBER_OF_AXES implies r.axes_view()[i]
                == default_axis_view(i == 0 || i == 3) by {
                assert(r.axes_view()[i] == r.axes@[i]@);
            }
        }
        r
    }

    /// Enable an axis beyond the primary pair.
    pub fn with_axis(self, choice: AxisChoice) -> (r: Plot)
        requires
            self.wf(),
        ensures
            r.wf(),
            r.axes_view() == self.axes_view().update(
                choice.spec_index() as int,
                AxisSetupView { enabled: true, ..self.axes_view()[choice.spec_index() as int] },
            ),
            r.title == self.title,
            r.size_x == self.size_x,
            r.size_y == self.size_y,
            r.legend == self.legend,
            r.flags == self.flags,
    {
        let mut s = self;
        let idx = choice.index();
        s.axes[idx].enabled = true;
        proof {
            assert(s.axes_view() =~= self.axes_view().update(
                choice.spec_index() as int,
                AxisSetupView { enabled: true, ..self.axes_view()[choice.spec_index() as int] },
            ));
        }
        s
    }

    /// Set the plot size in host-interface units, as `f32` bit patterns.
    pub fn size(self, size_x: u32, size_y: u32) -> (r: Plot)
        ensures
            r == (Plot { size_x, size_y, ..self }),
    {
        let mut s = self;
        s.size_x = size_x;
        s.size_y = size_y;
        s
    }

    /// Set the label of the primary X axis.
    pub fn x_label(self, label: &str) -> (r: Plot)
        requires
            self.wf(),
            str_no_nul(label@),
        ensures
            r.wf(),
            same_but_axes(self, r),
            r.axes_view() == label_set(self.axes_view(), 0, label@),
    {
        self.axis_label(label, AxisChoice::X1)
    }

    /// Set the label of the primary Y axis.
    pub fn y_label(self, label: &str) -> (r: Plot)
        requires
            self.wf(),
            str_no_nul(label@),
        ensures
            r.wf(),
            same_but_axes(self, r),
            r.axes_view() == label_set(self.axes_view(), 3, label@),
    {
        self.axis_label(label, AxisChoice::Y1)
    }

    /// Label an axis and enable it. An empty label clears the stored label.
    pub fn axis_label(self, label: &str, axis_choice: AxisChoice) -> (r: Plot)
        requires
            self.wf(),
            str_no_nul(label@),
        ensures
            r.wf(),
            same_but_axes(self, r),
            r.axes_view() == label_set(self.axes_view(), axis_choice.spec_index() as int, label@),
    {
        let mut s = self;
        let idx = axis_choice.index();
        s.axes[idx].enabled = true;
        s.axes[idx].label = if !label.is_empty() {
            Some(label.to_owned())
        } else {
            None
        };
        proof {
            assert(s.axes_view() =~= label_set(
                self.axes_view(),
                axis_choice.spec_index() as int,
                label@,
            ));
        }
        s
    }

    /// Set the limits of an axis, to be applied under `condition`, and
    /// enable the axis. Overrides an earlier limit choice for that axis.
    pub fn axis_limits(self, limits: PlotRange, axis_choice: AxisChoice, condition: PlotCond) -> (r:
        Plot)
        requires
            self.wf(),
        ensures
            r.wf(),
            same_but_axes(self, r),
            r.axes_view() == limits_set(
                self.axes_view(),
                axis_choice.spec_index() as int,
                limits,
                condition,
            ),
    {
        let mut s = self;
        let idx = axis_choice.index();
        s.axes[idx].enabled = true;
        s.axes[idx].limits = Some(AxisLimitSpecification::Single(limits, condition));
        proof {
            assert(s.axes_view() =~= limits_set(
                self.axes_view(),
                axis_choice.spec_index() as int,
                limits,
                condition,
            ));
        }
        s
    }

    /// Set the limits of the primary X axis.
    pub fn x_limits(self, limits: PlotRange, condition: PlotCond) -> (r: Plot)
        requires
            self.wf(),
        ensures
            r.wf(),
            same_but_axes(self, r),
            r.axes_view() == limits_set(self.axes_view(), 0, limits, condition),
    {
        self.x1_limits(limits, condition)
    }

    /// Set the limits of the primary Y axis.
    pub fn y_limits(self, limits: PlotRange, condition: PlotCond) -> (r: Plot)
        requires
            self.wf(),
        ensures
            r.wf(),
            same_but_axes(self, r),
            r.axes_view() == limits_set(self.axes_view(), 3, limits, condition),
    {
        self.y1_limits(limits, condition)
    }

    /// Set the limits of the primary X axis.
    pub fn x1_limits(self, limits: PlotRange, condition: PlotCond) -> (r: Plot)
        requires
            self.wf(),
        ensures
            r.wf(),
            same_but_axes(self, r),
            r.axes_view() == limits_set(self.axes_view(), 0, limits, condition),
    {
        self.axis_limits(limits, AxisChoice::X1, condition)
    }

    /// Set the limits of the primary Y axis.
    pub fn y1_limits(self, limits: PlotRange, condition: PlotCond) -> (r: Plot)
        requires
            self.wf(),
        ensures
            r.wf(),
            same_but_axes(self, r),
            r.axes_view() == limits_set(self.axes_view(), 3, limits, condition),
    {
        self.axis_limits(limits, AxisChoice::Y1, condition)
    }

    /// Set the limits of the second Y axis.
    pub fn y2_limits(self, limits: PlotRange, condition: PlotCond) -> (r: Plot)
        requires
            self.wf(),
        ensures
            r.wf(),
            same_but_axes(self, r),
            r.axes_view() == limits_set(self.axes_view(), 4, limits, condition),
    {
        self.axis_limits(limits, AxisChoice::Y2, condition)
    }

    /// Set the limits of the third Y axis.
    pub fn y3_limits(self, limits: PlotRange, condition: PlotCond) -> (r: Plot)
        requires
            self.wf(),
        ensures
            r.wf(),
            same_but_axes(self, r),
            r.axes_view() == limits_set(self.axes_view(), 5, limits, condition),
    {
        self.axis_limits(limits, AxisChoice::Y3, condition)
    }

    /// Constrain how far an axis can be panned, as `f64` bit patterns.
    pub fn axis_limits_constraints(self, axis: AxisChoice, v_min: u64, v_max: u64) -> (r: Plot)
        requires
            self.wf(),
        ensures
            r.wf(),
            same_but_axes(self, r),
            r.axes_view() == constraints_set(
                self.axes_view(),
                axis.spec_index() as int,
                v_min,
                v_max,
            ),
    {
        let mut s = self;
        let idx = axis.index();
        s.axes[idx].limits_constraints = Some((v_min, v_max));
        proof {
            assert(s.axes_view() =~= constraints_set(
                self.axes_view(),
                axis.spec_index() as int,
                v_min,
                v_max,
            ));
        }
        s
    }

    /// Constrain how far an axis can be zoomed, as `f64` bit patterns.
    pub fn axis_zoom_constraints(self, axis: AxisChoice, z_min: u64, z_max: u64) -> (r: Plot)
        requires
            self.wf(),
        ensures
            r.wf(),
            same_but_axes(self, r),
            r.axes_view() == zoom_set(self.axes_view(), axis.spec_index() as int, z_min, z_max),
    {
        let mut s = self;
        let idx = axis.index();
        s.axes[idx].zoom_constraints = Some((z_min, z_max));
        proof {
            assert(s.axes_view() =~= zoom_set(
                self.axes_view(),
                axis.spec_index() as int,
                z_min,
                z_max,
            ));
        }
        s
    }

    /// Set a custom tick-text format for an axis. A format string must hold
    /// no NUL characters, since the native library receives it as a C
    /// string.
    pub fn axis_format(self, axis: AxisChoice, formatter: AxisFormat) -> (r: Plot)
        requires
            self.wf(),
            formatter matches AxisFormat::FormatString(s) ==> str_no_nul(s@),
        ensures
            r.wf(),
            same_but_axes(self, r),
            r.axes_view() == format_set(self.axes_view(), axis.spec_index() as int, formatter@),
    {
        let ghost fv = formatter@;
        let mut s = self;
        let idx = axis.index();
        s.axes[idx].format = Some(formatter);
        proof {
            assert(s.axes_view() =~= format_set(self.axes_view(), axis.spec_index() as int, fv));
        }
        s
    }

    /// Link an axis's limits to the shared range named by `link`, and enable
    /// the axis. Overrides an earlier limit choice for that axis.
    pub fn linked_axis_limits(self, link: u64, axis_choice: AxisChoice) -> (r: Plot)
        requires
            self.wf(),
        ensures
            r.wf(),
            same_but_axes(self, r),
            r.axes_view() == linked_set(self.axes_view(), axis_choice.spec_index() as int, link),
    {
        let mut s = self;
        let idx = axis_choice.index();
        s.axes[idx].enabled = true;
        s.axes[idx].limits = Some(AxisLimitSpecification::Linked(link));
        proof {
            assert(s.axes_view() =~= linked_set(
                self.axes_view(),
                axis_choice.spec_index() as int,
                link,
            ));
        }
        s
    }

    /// Link the primary X axis to a shared range.
    pub fn linked_x1_limits(self, link: u64) -> (r: Plot)
        requires
            self.wf(),
        ensures
            r.wf(),
            same_but_axes(self, r),
            r.axes_view() == linked_set(self.axes_view(), 0, link),
    {
        self.linked_axis_limits(link, AxisChoice::X1)
    }

    /// Link the primary Y axis to a shared range.
    pub fn linked_y1_limits(self, link: u64) -> (r: Plot)
        requires
            self.wf(),
        ensures
            r.wf(),
            same_but_axes(self, r),
            r.axes_view() == linked_set(self.axes_view(), 3, link),
    {
        self.linked_axis_limits(link, AxisChoice::Y1)
    }

    /// Link the second Y axis to a shared range.
    pub fn linked_y2_limits(self, link: u64) -> (r: Plot)
        requires
            self.wf(),
        ensures
            r.wf(),
            same_but_axes(self, r),
            r.axes_view() == linked_set(self.axes_view(), 4, link),
    {
        self.linked_axis_limits(link, AxisChoice::Y2)
    }

    /// Link the third Y axis to a shared range.
    pub fn linked_y3_limits(self, link: u64) -> (r: Plot)
        requires
            self.wf(),
        ensures
            r.wf(),
            same_but_axes(self, r),
            r.axes_view() == linked_set(self.axes_view(), 5, link),
    {
        self.linked_axis_limits(link, AxisChoice::Y3)
    }

    /// Set custom ticks without labels on the primary X axis.
    pub fn x_ticks(self, ticks: &[u64], show_default: bool) -> (r: Plot)
        requires
            self.wf(),
        ensures
            r.wf(),
            same_but_axes(self, r),
            r.axes_view() == ticks_set(self.axes_view(), 0, ticks@, show_default),
    {
        self.axis_ticks(AxisChoice::X1, ticks, show_default)
    }

    /// Set custom ticks without labels on an axis, and enable it. The
    /// positions are `f64` bit patterns; `show_default` keeps the default
    /// ticks visible beside them.
    pub fn axis_ticks(self, axis_choice: AxisChoice, ticks: &[u64], show_default: bool) -> (r: Plot)
        requires
            self.wf(),
        ensures
            r.wf(),
            same_but_axes(self, r),
            r.axes_view() == ticks_set(
                self.axes_view(),
                axis_choice.spec_index() as int,
                ticks@,
                show_default,
            ),
    {
        let mut s = self;
        let idx = axis_choice.index();
        s.axes[idx].enabled = true;
        s.axes[idx].tick_positions = Some(vstd::slice::slice_to_vec(ticks));
        s.axes[idx].show_default_ticks = show_default;
        proof {
            assert(s.axes_view() =~= ticks_set(
                self.axes_view(),
                axis_choice.spec_index() as int,
                ticks@,
                show_default,
            ));
        }
        s
    }

    /// Set custom ticks with labels on the primary X axis.
    pub fn x_ticks_with_labels(self, tick_labels: &[(u64, String)], show_default: bool) -> (r: Plot)
        requires
            self.wf(),
            forall|i: int| 0 <= i < tick_labels@.len() ==> str_no_nul(#[trigger] tick_labels@[i].1@),
        ensures
            r.wf(),
            same_but_axes(self, r),
            r.axes_view() == ticks_labels_set(
                self.axes_view(),
                0,
                positions_of(tick_labels@),
                texts_of(tick_labels@),
                show_default,
            ),
    {
        self.axis_ticks_with_labels(AxisChoice::X1, tick_labels, show_default)
    }

    /// Set custom ticks with labels on the primary Y axis.
    pub fn y_ticks_with_labels(self, tick_labels: &[(u64, String)], show_default: bool) -> (r: Plot)
        requires
            self.wf(),
            forall|i: int| 0 <= i < tick_labels@.len() ==> str_no_nul(#[trigger] tick_labels@[i].1@),
        ensures
            r.wf(),
            same_but_axes(self, r),
            r.axes_view() == ticks_labels_set(
                self.axes_view(),
                3,
                positions_of(tick_labels@),
                texts_of(tick_labels@),
                show_default,
            ),
    {
        self.axis_ticks_with_labels(AxisChoice::Y1, tick_labels, show_default)
    }

    /// Set custom ticks with labels on an axis, and enable it. Each pair is
    /// one tick: its position as an `f64` bit pattern, and its text. Tick
    /// texts must hold no NUL characters, since the native library receives
    /// them as C strings.
    pub fn axis_ticks_with_labels(
        self,
        axis_choice: AxisChoice,
        tick_labels: &[(u64, String)],
        show_default: bool,
    ) -> (r: Plot)
        requires
            self.wf(),
            forall|i: int| 0 <= i < tick_labels@.len() ==> str_no_nul(#[trigger] tick_labels@[i].1@),
        ensures
            r.wf(),
            same_but_axes(self, r),
            r.axes_view() == ticks_labels_set(
                self.axes_view(),
                axis_choice.spec_index() as int,
                positions_of(tick_labels@),
                texts_of(tick_labels@),
                show_default,
            ),
    {
        let n: usize = tick_labels.len();
        let mut positions: Vec<u64> = Vec::new();
        let mut texts: Vec<String> = Vec::new();
        let mut i: usize = 0;
        while i < n
            invariant
                i <= n,
                n == tick_labels@.len(),
                positions@.len() == i,
                texts@.len() == i,
                forall|m: int| 0 <= m < i ==> positions@[m] == positions_of(tick_labels@)[m],
                forall|m: int| 0 <= m < i ==> texts@[m]@ == #[trigger] texts_of(tick_labels@)[m],
            decreases n - i,
        {
            positions.push(tick_labels[i].0);
            let text = tick_labels[i].1.as_str().to_owned();
            texts.push(text);
            i = i + 1;
        }
        proof {
            assert forall|m: int| 0 <= m < n implies texts.deep_view()[m] == texts_of(
                tick_labels@,
            )[m] by {
                assert(texts.deep_view()[m] == texts@[m]@);
            }
        }
        let mut s = self;
        let idx = axis_choice.index();
        s.axes[idx].enabled = true;
        s.axes[idx].tick_positions = Some(positions);
        s.axes[idx].tick_labels = Some(texts);
        s.axes[idx].show_default_ticks = show_default;
        proof {
            assert(s.axes@[idx as int]@.tick_positions matches Some(p) && p
                =~= positions_of(tick_labels@));
            assert(s.axes@[idx as int]@.tick_labels matches Some(t) && t =~= texts_of(tick_labels@));
            assert(s.axes_view() =~= ticks_labels_set(
                self.axes_view(),
                axis_choice.spec_index() as int,
                positions_of(tick_labels@),
                texts_of(tick_labels@),
                show_default,
            ));
        }
        s
    }

    /// Set the plot flag bits.
    pub fn with_flags(self, flags: u32) -> (r: Plot)
        ensures
            r == (Plot { flags, ..self }),
    {
        let mut s = self;
        s.flags = flags;
        s
    }

    /// Set the axis flag bits of the primary X axis.
    pub fn with_x1_flags(self, flags: u32) -> (r: Plot)
        requires
            self.wf(),
        ensures
            r.wf(),
            same_but_axes(self, r),
            r.axes_view() == flags_set(self.axes_view(), 0, flags),
    {
        self.with_axis_flags(AxisChoice::X1, flags)
    }

    /// Set the axis flag bits of the primary Y axis.
    pub fn with_y1_flags(self, flags: u32) -> (r: Plot)
        requires
            self.wf(),
        ensures
            r.wf(),
            same_but_axes(self, r),
            r.axes_view() == flags_set(self.axes_view(), 3, flags),
    {
        self.with_axis_flags(AxisChoice::Y1, flags)
    }

    /// Set the axis flag bits of an axis, and enable it.
    pub fn with_axis_flags(self, axis_choice: AxisChoice, flags: u32) -> (r: Plot)
        requires
            self.wf(),
        ensures
            r.wf(),
            same_but_axes(self, r),
            r.axes_view() == flags_set(self.axes_view(), axis_choice.spec_index() as int, flags),
    {
        let mut s = self;
        let idx = axis_choice.index();
        s.axes[idx].enabled = true;
        s.axes[idx].flags = flags;
        proof {
            assert(s.axes_view() =~= flags_set(
                self.axes_view(),
                axis_choice.spec_index() as int,
                flags,
            ));
        }
        s
    }

    /// Place the legend and set its flag bits. While set, the native
    /// library's interactive legend placement is overridden each frame.
    pub fn with_legend_location(self, location: &PlotLocation, flags: u32) -> (r: Plot)
        ensures
            r == (Plot { legend: Some((*location, flags)), ..self }),
    {
        let mut s = self;
        s.legend = Some((*location, flags));
        s
    }

    /// Set the scale of the primary X axis.
    pub fn with_x1_scale(self, scale: &AxisScale) -> (r: Plot)
        requires
            self.wf(),
        ensures
            r.wf(),
            same_but_axes(self, r),
            r.axes_view() == scale_set_only(self.axes_view(), 0, *scale),
    {
        let mut s = self;
        s.axes[0].scale = *scale;
        proof {
            assert(s.axes_view() =~= scale_set_only(self.axes_view(), 0, *scale));
        }
        s
    }

    /// Set the scale of the primary Y axis.
    pub fn with_y1_scale(self, scale: &AxisScale) -> (r: Plot)
        requires
            self.wf(),
        ensures
            r.wf(),
            same_but_axes(self, r),
            r.axes_view() == scale_set_only(self.axes_view(), 3, *scale),
    {
        let mut s = self;
        s.axes[3].scale = *scale;
        proof {
            assert(s.axes_view() =~= scale_set_only(self.axes_view(), 3, *scale));
        }
        s
    }

    /// Set the scale of an axis, and enable it.
    pub fn with_axis_scale(self, axis_choice: AxisChoice, scale: &AxisScale) -> (r: Plot)
        requires
            self.wf(),
        ensures
            r.wf(),
            same_but_axes(self, r),
            r.axes_view() == scale_set(self.axes_view(), axis_choice.spec_index() as int, *scale),
    {
        let mut s = self;
        let idx = axis_choice.index();
        s.axes[idx].enabled = true;
        s.axes[idx].scale = *scale;
        proof {
            assert(s.axes_view() =~= scale_set(
                self.axes_view(),
                axis_choice.spec_index() as int,
                *scale,
            ));
        }
        s
    }
}

/// The two plots agree on everything except the per-axis configuration.
pub open spec fn same_but_axes(a: Plot, b: Plot) -> bool {
    &&& a.title == b.title
    &&& a.size_x == b.size_x
    &&& a.size_y == b.size_y
    &&& a.legend == b.legend
    &&& a.flags == b.flags
}

/// Axis `i` labeled (empty text clears the label) and enabled.
pub open spec fn label_set(v: Seq<AxisSetupView>, i: int, label: Seq<char>) -> Seq<AxisSetupView> {
    v.update(
        i,
        AxisSetupView {
            enabled: true,
            label: if label.len() > 0 {
                Some(label)
            } else {
                None
            },
            ..v[i]
        },
    )
}

/// Axis `i` given direct limits and enabled.
pub open spec fn limits_set(v: Seq<AxisSetupView>, i: int, range: PlotRange, cond: PlotCond) -> Seq<
    AxisSetupView,
> {
    v.update(
        i,
        AxisSetupView {
            enabled: true,
            limits: Some(AxisLimitSpecification::Single(range, cond)),
            ..v[i]
        },
    )
}

/// Axis `i` linked to a shared range and enabled.
pub open spec fn linked_set(v: Seq<AxisSetupView>, i: int, link: u64) -> Seq<AxisSetupView> {
    v.update(
        i,
        AxisSetupView { enabled: true, limits: Some(AxisLimitSpecification::Linked(link)), ..v[i] },
    )
}

/// Axis `i` given pan constraints.
pub open spec fn constraints_set(v: Seq<AxisSetupView>, i: int, min: u64, max: u64) -> Seq<
    AxisSetupView,
> {
    v.update(i, AxisSetupView { limits_constraints: Some((min, max)), ..v[i] })
}

/// Axis `i` given zoom constraints.
pub open spec fn zoom_set(v: Seq<AxisSetupView>, i: int, min: u64, max: u64) -> Seq<AxisSetupView> {
    v.update(i, AxisSetupView { zoom_constraints: Some((min, max)), ..v[i] })
}

/// Axis `i` given a tick-text format.
pub open spec fn format_set(v: Seq<AxisSetupView>, i: int, f: AxisFormatView) -> Seq<
    AxisSetupView,
> {
    v.update(i, AxisSetupView { format: Some(f), ..v[i] })
}

/// Axis `i` given unlabeled ticks and enabled.
pub open spec fn ticks_set(v: Seq<AxisSetupView>, i: int, positions: Seq<u64>, show_default: bool) -> Seq<
    AxisSetupView,
> {
    v.update(
        i,
        AxisSetupView {
            enabled: true,
            tick_positions: Some(positions),
            show_default_ticks: show_default,
            ..v[i]
        },
    )
}

/// Axis `i` given labeled ticks and enabled.
pub open spec fn ticks_labels_set(
    v: Seq<AxisSetupView>,
    i: int,
    positions: Seq<u64>,
    texts: Seq<Seq<char>>,
    show_default: bool,
) -> Seq<AxisSetupView> {
    v.update(
        i,
        AxisSetupView {
            enabled: true,
            tick_positions: Some(positions),
            tick_labels: Some(texts),
            show_default_ticks: show_default,
            ..v[i]
        },
    )
}

/// Axis `i` given flag bits and enabled.
pub open spec fn flags_set(v: Seq<AxisSetupView>, i: int, flags: u32) -> Seq<AxisSetupView> {
    v.update(i, AxisSetupView { enabled: true, flags, ..v[i] })
}

/// Axis `i` given a scale and enabled.
pub open spec fn scale_set(v: Seq<AxisSetupView>, i: int, scale: AxisScale) -> Seq<AxisSetupView> {
    v.update(i, AxisSetupView { enabled: true, scale, ..v[i] })
}

/// Axis `i` given a scale without being enabled.
pub open spec fn scale_set_only(v: Seq<AxisSetupView>, i: int, scale: AxisScale) -> Seq<
    AxisSetupView,
> {
    v.update(i, AxisSetupView { scale, ..v[i] })
}

/// The tick positions of a pair list.
pub open spec fn positions_of(pairs: Seq<(u64, String)>) -> Seq<u64> {
    Seq::new(pairs.len(), |i: int| pairs[i].0)
}

/// The tick texts of a pair list, as characters.
pub open spec fn texts_of(pairs: Seq<(u64, String)>) -> Seq<Seq<char>> {
    Seq::new(pairs.len(), |i: int| pairs[i].1@)
}

/// One configuration command, to be forwarded to the native library between
/// opening a plot and the first drawing call, in the order produced.
#[derive(Debug)]
pub enum SetupCmd {
    /// Declare an axis, with its label and flag bits.
    Axis { axis: usize, label: Option<String>, flags: u32 },
    /// Set an axis's scale.
    Scale { axis: usize, scale: AxisScale },
    /// Constrain panning of an axis (`f64` bit patterns).
    LimitsConstraints { axis: usize, min: u64, max: u64 },
    /// Constrain zooming of an axis (`f64` bit patterns).
    ZoomConstraints { axis: usize, min: u64, max: u64 },
    /// Set an axis's tick-text format string.
    FormatString { axis: usize, fmt: String },
    /// Register the tick-text callback with this handle for an axis.
    FormatCallback { axis: usize, callback: u64 },
    /// Set an axis's limits under a condition.
    Limits { axis: usize, range: PlotRange, cond: PlotCond },
    /// Link an axis's limits to the shared range with this handle.
    LinkedLimits { axis: usize, link: u64 },
    /// Set custom ticks of an axis: positions, optional parallel texts, and
    /// whether default ticks stay.
    Ticks { axis: usize, positions: Vec<u64>, labels: Option<Vec<String>>, show_default: bool },
    /// Place the legend.
    Legend { location: PlotLocation, flags: u32 },
}

/// A setup command as spec data: every stored collection replaced by its
/// contents.
pub ghost enum SetupCmdView {
    Axis { axis: usize, label: Option<Seq<char>>, flags: u32 },
    Scale { axis: usize, scale: AxisScale },
    LimitsConstraints { axis: usize, min: u64, max: u64 },
    ZoomConstraints { axis: usize, min: u64, max: u64 },
    FormatString { axis: usize, fmt: Seq<char> },
    FormatCallback { axis: usize, callback: u64 },
    Limits { axis: usize, range: PlotRange, cond: PlotCond },
    LinkedLimits { axis: usize, link: u64 },
    Ticks { axis: usize, positions: Seq<u64>, labels: Option<Seq<Seq<char>>>, show_default: bool },
    Legend { location: PlotLocation, flags: u32 },
}

impl View for SetupCmd {
    type V = SetupCmdView;

    open spec fn view(&self) -> SetupCmdView {
        match self {
            SetupCmd::Axis { axis, label, flags } => SetupCmdView::Axis {
                axis: *axis,
                label: opt_str_view(*label),
                flags: *flags,
            },
            SetupCmd::Scale { axis, scale } => SetupCmdView::Scale { axis: *axis, scale: *scale },
            SetupCmd::LimitsConstraints { axis, min, max } => SetupCmdView::LimitsConstraints {
                axis: *axis,
                min: *min,
                max: *max,
            },
            SetupCmd::ZoomConstraints { axis, min, max } => SetupCmdView::ZoomConstraints {
                axis: *axis,
                min: *min,
                max: *max,
            },
            SetupCmd::FormatString { axis, fmt } => SetupCmdView::FormatString {
                axis: *axis,
                fmt: fmt@,
            },
            SetupCmd::FormatCallback { axis, callback } => SetupCmdView::FormatCallback {
                axis: *axis,
                callback: *callback,
            },
            SetupCmd::Limits { axis, range, cond } => SetupCmdView::Limits {
                axis: *axis,
                range: *range,
                cond: *cond,
            },
            SetupCmd::LinkedLimits { axis, link } => SetupCmdView::LinkedLimits {
                axis: *axis,
                link: *link,
            },
            SetupCmd::Ticks { axis, positions, labels, show_default } => SetupCmdView::Ticks {
                axis: *axis,
                positions: positions@,
                labels: opt_strs_view(*labels),
                show_default: *show_default,
            },
            SetupCmd::Legend { location, flags } => SetupCmdView::Legend {
                location: *location,
                flags: *flags,
            },
        }
    }
}

/// The views of a command list, in order.
pub open spec fn cmd_views(s: Seq<SetupCmd>) -> Seq<SetupCmdView> {
    Seq::new(s.len(), |i: int| s[i]@)
}

/// The axis-declaration commands one axis contributes: nothing when it is
/// disabled; otherwise its declaration, scale, and any constraints and
/// tick-text format, in that order.
pub open spec fn axis_config_cmds(a: AxisSetupView, axis: usize) -> Seq<SetupCmdView> {
    if !a.enabled {
        Seq::empty()
    } else {
        seq![
            SetupCmdView::Axis { axis, label: a.label, flags: a.flags },
            SetupCmdView::Scale { axis, scale: a.scale },
        ] + (match a.limits_constraints {
            Some(c) => seq![SetupCmdView::LimitsConstraints { axis, min: c.0, max: c.1 }],
            None => Seq::empty(),
        }) + (match a.zoom_constraints {
            Some(c) => seq![SetupCmdView::ZoomConstraints { axis, min: c.0, max: c.1 }],
            None => Seq::empty(),
        }) + (match a.format {
            Some(AxisFormatView::FormatString(f)) => seq![
                SetupCmdView::FormatString { axis, fmt: f },
            ],
            Some(AxisFormatView::Callback(cb)) => seq![
                SetupCmdView::FormatCallback { axis, callback: cb },
            ],
            None => Seq::empty(),
        })
    }
}

/// Axis-declaration commands of all axes from `i` on, in axis order.
pub open spec fn config_cmds_from(axes: Seq<AxisSetupView>, i: int) -> Seq<SetupCmdView>
    decreases axes.len() - i,
{
    if i < 0 || i >= axes.len() {
        Seq::empty()
    } else {
        axis_config_cmds(axes[i], i as usize) + config_cmds_from(axes, i + 1)
    }
}

/// The limit command one axis contributes, if limits were requested.
pub open spec fn limit_cmds(a: AxisSetupView, axis: usize) -> Seq<SetupCmdView> {
    match a.limits {
        Some(AxisLimitSpecification::Single(range, cond)) => seq![
            SetupCmdView::Limits { axis, range, cond },
        ],
        Some(AxisLimitSpecification::Linked(link)) => seq![
            SetupCmdView::LinkedLimits { axis, link },
        ],
        None => Seq::empty(),
    }
}

/// Limit commands of all axes from `i` on, in axis order.
pub open spec fn limit_cmds_from(axes: Seq<AxisSetupView>, i: int) -> Seq<SetupCmdView>
    decreases axes.len() - i,
{
    if i < 0 || i >= axes.len() {
        Seq::empty()
    } else {
        limit_cmds(axes[i], i as usize) + limit_cmds_from(axes, i + 1)
    }
}

/// The tick command one axis contributes: exactly its stored positions,
/// texts and default-tick choice, and only when positions were set and are
/// non-empty.
pub open spec fn tick_cmds(a: AxisSetupView, axis: usize) -> Seq<SetupCmdView> {
    match a.tick_positions {
        Some(pos) => if pos.len() > 0 {
            seq![
                SetupCmdView::Ticks {
                    axis,
                    positions: pos,
                    labels: a.tick_labels,
                    show_default: a.show_default_ticks,
                },
            ]
        } else {
            Seq::empty()
        },
        None => Seq::empty(),
    }
}

/// Tick commands of all axes from `i` on, in axis order.
pub open spec fn tick_cmds_from(axes: Seq<AxisSetupView>, i: int) -> Seq<SetupCmdView>
    decreases axes.len() - i,
{
    if i < 0 || i >= axes.len() {
        Seq::empty()
    } else {
        tick_cmds(axes[i], i as usize) + tick_cmds_from(axes, i + 1)
    }
}

/// The legend command, if a placement was configured.
pub open spec fn legend_cmds(legend: Option<(PlotLocation, u32)>) -> Seq<SetupCmdView> {
    match legend {
        Some((location, flags)) => seq![SetupCmdView::Legend { location, flags }],
        None => Seq::empty(),
    }
}

/// The full setup sequence of a plot: axis declarations, then limits, then
/// ticks, then the legend. This is the order the commands must reach the
/// native library in.
pub open spec fn setup_cmds(p: Plot) -> Seq<SetupCmdView> {
    config_cmds_from(p.axes_view(), 0) + limit_cmds_from(p.axes_view(), 0) + tick_cmds_from(
        p.axes_view(),
        0,
    ) + legend_cmds(p.legend)
}

/// Whether a command is a tick command.
pub open spec fn is_ticks(c: SetupCmdView) -> bool {
    c matches SetupCmdView::Ticks { .. }
}

/// The axis a tick command addresses.
pub open spec fn ticks_axis(c: SetupCmdView) -> usize {
    match c {
        SetupCmdView::Ticks { axis, .. } => axis,
        _ => 0,
    }
}

/// The tick command built from an axis's stored configuration.
pub open spec fn stored_tick_cmd(a: AxisSetupView, axis: usize) -> SetupCmdView {
    SetupCmdView::Ticks {
        axis,
        positions: match a.tick_positions {
            Some(p) => p,
            None => Seq::empty(),
        },
        labels: a.tick_labels,
        show_default: a.show_default_ticks,
    }
}

/// An axis configuration that contributes a tick command.
pub open spec fn has_ticks(a: AxisSetupView) -> bool {
    match a.tick_positions {
        Some(p) => p.len() > 0,
        None => false,
    }
}

proof fn lemma_axis_config_not_ticks(a: AxisSetupView, axis: usize)
    ensures
        forall|j: int|
            0 <= j < axis_config_cmds(a, axis).len() ==> !is_ticks(
                #[trigger] axis_config_cmds(a, axis)[j],
            ),
{
    if a.enabled {
        let s = axis_config_cmds(a, axis);
        assert forall|j: int| 0 <= j < s.len() implies !is_ticks(s[j]) by {
            match a.limits_constraints {
                Some(_) => {},
                None => {},
            }
            match a.zoom_constraints {
                Some(_) => {},
                None => {},
            }
            match a.format {
                Some(AxisFormatView::FormatString(_)) => {},
                Some(AxisFormatView::Callback(_)) => {},
                None => {},
            }
        }
    }
}

proof fn lemma_config_from_not_ticks(axes: Seq<AxisSetupView>, i: int)
    ensures
        forall|j: int|
            0 <= j < config_cmds_from(axes, i).len() ==> !is_ticks(
                #[trigger] config_cmds_from(axes, i)[j],
            ),
    decreases axes.len() - i,
{
    if i < 0 || i >= axes.len() {
    } else {
        lemma_config_from_not_ticks(axes, i + 1);
        lemma_axis_config_not_ticks(axes[i], i as usize);
        let head = axis_config_cmds(axes[i], i as usize);
        let rest = config_cmds_from(axes, i + 1);
        assert forall|j: int| 0 <= j < config_cmds_from(axes, i).len() implies !is_ticks(
            config_cmds_from(axes, i)[j],
        ) by {
            if j < head.len() {
                assert(config_cmds_from(axes, i)[j] == head[j]);
            } else {
                assert(config_cmds_from(axes, i)[j] == rest[j - head.len()]);
            }
        }
    }
}

proof fn lemma_limit_from_not_ticks(axes: Seq<AxisSetupView>, i: int)
    ensures
        forall|j: int|
            0 <= j < limit_cmds_from(axes, i).len() ==> !is_ticks(
                #[trigger] limit_cmds_from(axes, i)[j],
            ),
    decreases axes.len() - i,
{
    if i < 0 || i >= axes.len() {
    } else {
        lemma_limit_from_not_ticks(axes, i + 1);
        let head = limit_cmds(axes[i], i as usize);
        let rest = limit_cmds_from(axes, i + 1);
        assert forall|j: int| 0 <= j < limit_cmds_from(axes, i).len() implies !is_ticks(
            limit_cmds_from(axes, i)[j],
        ) by {
            match axes[i].limits {
                Some(AxisLimitSpecification::Single(_, _)) => {},
                Some(AxisLimitSpecification::Linked(_)) => {},
                None => {},
            }
            if j < head.len() {
                assert(limit_cmds_from(axes, i)[j] == head[j]);
            } else {
                assert(limit_cmds_from(axes, i)[j] == rest[j - head.len()]);
            }
        }
    }
}

proof fn lemma_tick_cmds_from_complete(axes: Seq<AxisSetupView>, i: int, k: int)
    requires
        0 <= i <= k < axes.len(),
        has_ticks(axes[k]),
    ensures
        tick_cmds_from(axes, i).contains(stored_tick_cmd(axes[k], k as usize)),
    decreases k - i,
{
    if i == k {
        assert(tick_cmds_from(axes, i)[0] == stored_tick_cmd(axes[k], k as usize));
    } else {
        lemma_tick_cmds_from_complete(axes, i + 1, k);
        let rest = tick_cmds_from(axes, i + 1);
        let j = choose|j: int| 0 <= j < rest.len() && rest[j] == stored_tick_cmd(
            axes[k],
            k as usize,
        );
        assert(tick_cmds_from(axes, i)[tick_cmds(axes[i], i as usize).len() + j]
            == stored_tick_cmd(axes[k], k as usize));
    }
}

proof fn lemma_tick_cmds_from_sound(axes: Seq<AxisSetupView>, i: int)
    requires
        0 <= i,
        axes.len() <= usize::MAX,
    ensures
        forall|j: int|
            0 <= j < tick_cmds_from(axes, i).len() ==> {
                let c = #[trigger] tick_cmds_from(axes, i)[j];
                &&& is_ticks(c)
                &&& i <= ticks_axis(c) < axes.len()
                &&& c == stored_tick_cmd(axes[ticks_axis(c) as int], ticks_axis(c))
            },
    decreases axes.len() - i,
{
    if i >= axes.len() {
    } else {
        lemma_tick_cmds_from_sound(axes, i + 1);
        let head = tick_cmds(axes[i], i as usize);
        let rest = tick_cmds_from(axes, i + 1);
        assert forall|j: int| 0 <= j < tick_cmds_from(axes, i).len() implies {
            let c = #[trigger] tick_cmds_from(axes, i)[j];
            &&& is_ticks(c)
            &&& i <= ticks_axis(c) < axes.len()
            &&& c == stored_tick_cmd(axes[ticks_axis(c) as int], ticks_axis(c))
        } by {
            match axes[i].tick_positions {
                Some(_) => {},
                None => {},
            }
            if j < head.len() {
                assert(tick_cmds_from(axes, i)[j] == head[j]);
            } else {
                assert(tick_cmds_from(axes, i)[j] == rest[j - head.len()]);
            }
        }
    }
}

/// Law: when an axis was given custom tick positions, the setup sequence
/// holds the tick command for that axis with exactly the stored positions,
/// the stored texts, and the stored choice about default ticks — and every
/// tick command for that axis in the sequence is that one, so nothing else
/// can reach the native tick call for it.
pub proof fn lemma_ticks_forwarded_exactly(p: Plot, axis: usize, pos: Seq<u64>)
    requires
        p.wf(),
        axis < NUMBER_OF_AXES,
        p.axes_view()[axis as int].tick_positions == Some(pos),
        pos.len() > 0,
    ensures
        ({
            let a = p.axes_view()[axis as int];
            let cmd = SetupCmdView::Ticks {
                axis,
                positions: pos,
                labels: a.tick_labels,
                show_default: a.show_default_ticks,
            };
            &&& setup_cmds(p).contains(cmd)
            &&& forall|j: int|
                0 <= j < setup_cmds(p).len() && is_ticks(#[trigger] setup_cmds(p)[j]) && ticks_axis(
                    setup_cmds(p)[j],
                ) == axis ==> setup_cmds(p)[j] == cmd
        }),
{
    let av = p.axes_view();
    let a = av[axis as int];
    let cmd = SetupCmdView::Ticks {
        axis,
        positions: pos,
        labels: a.tick_labels,
        show_default: a.show_default_ticks,
    };
    assert(cmd == stored_tick_cmd(a, axis));
    let part1 = config_cmds_from(av, 0);
    let part2 = limit_cmds_from(av, 0);
    let part3 = tick_cmds_from(av, 0);
    let part4 = legend_cmds(p.legend);
    let all = setup_cmds(p);
    lemma_config_from_not_ticks(av, 0);
    lemma_limit_from_not_ticks(av, 0);
    lemma_tick_cmds_from_sound(av, 0);
    lemma_tick_cmds_from_complete(av, 0, axis as int);
    let w = choose|w: int| 0 <= w < part3.len() && part3[w] == cmd;
    assert(all[part1.len() + part2.len() + w] == cmd);
    assert(all.contains(cmd));
    assert forall|j: int|
        0 <= j < all.len() && is_ticks(#[trigger] all[j]) && ticks_axis(all[j])
            == axis implies all[j] == cmd by {
        let n1 = part1.len() as int;
        let n2 = part2.len() as int;
        let n3 = part3.len() as int;
        if j < n1 {
            assert(all[j] == part1[j]);
        } else if j < n1 + n2 {
            assert(all[j] == part2[j - n1]);
        } else if j < n1 + n2 + n3 {
            assert(all[j] == part3[j - n1 - n2]);
        } else {
            assert(all[j] == part4[j - n1 - n2 - n3]);
        }
    }
}

/// Copy of an optional string, by contents.
fn clone_opt_string(o: &Option<String>) -> (r: Option<String>)
    ensures
        opt_str_view(r) == opt_str_view(*o),
{
    match o {
        Some(s) => Some(s.as_str().to_owned()),
        None => None,
    }
}

/// Copy of a string list, by contents.
fn clone_strings(v: &Vec<String>) -> (r: Vec<String>)
    ensures
        r.deep_view() == v.deep_view(),
{
    let n: usize = v.len();
    let mut r: Vec<String> = Vec::new();
    let mut i: usize = 0;
    while i < n
        invariant
            i <= n,
            n == v@.len(),
            r@.len() == i,
            forall|m: int| 0 <= m < i ==> r@[m]@ == v@[m]@,
        decreases n - i,
    {
        r.push(v[i].as_str().to_owned());
        i = i + 1;
    }
    proof {
        assert forall|m: int| 0 <= m < n implies r.deep_view()[m] == v.deep_view()[m] by {
            assert(r.deep_view()[m] == r@[m]@);
            assert(v.deep_view()[m] == v@[m]@);
        }
        assert(r.deep_view() =~= v.deep_view());
    }
    r
}

/// Copy of an optional string list, by contents.
fn clone_opt_strings(o: &Option<Vec<String>>) -> (r: Option<Vec<String>>)
    ensures
        opt_strs_view(r) == opt_strs_view(*o),
{
    match o {
        Some(v) => Some(clone_strings(v)),
        None => None,
    }
}

/// Append the axis-declaration commands of one axis.
fn push_axis_config(cmds: &mut Vec<SetupCmd>, a: &AxisSetup, axis: usize)
    ensures
        cmd_views(final(cmds)@) == cmd_views(old(cmds)@) + axis_config_cmds(a@, axis),
{
    let ghost before = cmd_views(cmds@);
    if !a.enabled {
        proof {
            assert(cmd_views(cmds@) =~= before + axis_config_cmds(a@, axis));
        }
        return ;
    }
    cmds.push(SetupCmd::Axis { axis, label: clone_opt_string(&a.label), flags: a.flags });
    cmds.push(SetupCmd::Scale { axis, scale: a.scale });
    if let Some(c) = a.limits_constraints {
        cmds.push(SetupCmd::LimitsConstraints { axis, min: c.0, max: c.1 });
    }
    if let Some(c) = a.zoom_constraints {
        cmds.push(SetupCmd::ZoomConstraints { axis, min: c.0, max: c.1 });
    }
    match &a.format {
        Some(AxisFormat::FormatString(f)) => {
            cmds.push(SetupCmd::FormatString { axis, fmt: f.as_str().to_owned() });
        },
        Some(AxisFormat::Callback(cb)) => {
            cmds.push(SetupCmd::FormatCallback { axis, callback: *cb });
        },
        None => {},
    }
    proof {
        assert(cmd_views(cmds@) =~= before + axis_config_cmds(a@, axis));
    }
}

/// Append the limit command of one axis, if any.
fn push_limit_cmd(cmds: &mut Vec<SetupCmd>, a: &AxisSetup, axis: usize)
    ensures
        cmd_views(final(cmds)@) == cmd_views(old(cmds)@) + limit_cmds(a@, axis),
{
    let ghost before = cmd_views(cmds@);
    match &a.limits {
        Some(AxisLimitSpecification::Single(range, cond)) => {
            cmds.push(SetupCmd::Limits { axis, range: *range, cond: *cond });
        },
        Some(AxisLimitSpecification::Linked(link)) => {
            cmds.push(SetupCmd::LinkedLimits { axis, link: *link });
        },
        None => {},
    }
    proof {
        assert(cmd_views(cmds@) =~= before + limit_cmds(a@, axis));
    }
}

/// Append the tick command of one axis, if any.
fn push_tick_cmd(cmds: &mut Vec<SetupCmd>, a: &AxisSetup, axis: usize)
    ensures
        cmd_views(final(cmds)@) == cmd_views(old(cmds)@) + tick_cmds(a@, axis),
{
    let ghost before = cmd_views(cmds@);
    match &a.tick_positions {
        Some(pos) => {
            if pos.len() > 0 {
                let positions = vstd::slice::slice_to_vec(pos.as_slice());
                let labels = clone_opt_strings(&a.tick_labels);
                cmds.push(
                    SetupCmd::Ticks {
                        axis,
                        positions,
                        labels,
                        show_default: a.show_default_ticks,
                    },
                );
            }
        },
        None => {},
    }
    proof {
        assert(cmd_views(cmds@) =~= before + tick_cmds(a@, axis));
    }
}

impl Plot {
    /// The ordered setup commands this descriptor asks for: exactly
    /// [`setup_cmds`]. The shell forwards them one by one right after the
    /// native library agreed to render the plot.
    pub fn setup_commands(&self) -> (cmds: Vec<SetupCmd>)
        requires
            self.wf(),
        ensures
            cmd_views(cmds@) == setup_cmds(*self),
    {
        let ghost av = self.axes_view();
        let mut cmds: Vec<SetupCmd> = Vec::new();
        let mut i: usize = 0;
        proof {
            assert(cmd_views(cmds@) =~= Seq::<SetupCmdView>::empty());
            assert(Seq::<SetupCmdView>::empty() + config_cmds_from(av, 0) =~= config_cmds_from(
                av,
                0,
            ));
        }
        while i < NUMBER_OF_AXES
            invariant
                self.wf(),
                i <= NUMBER_OF_AXES,
                av == self.axes_view(),
                cmd_views(cmds@) + config_cmds_from(av, i as int) == config_cmds_from(av, 0),
            decreases NUMBER_OF_AXES - i,
        {
            let ghost before = cmd_views(cmds@);
            push_axis_config(&mut cmds, &self.axes[i], i);
            proof {
                assert(av[i as int] == self.axes@[i as int]@);
                assert(before + axis_config_cmds(av[i as int], i) + config_cmds_from(
                    av,
                    i as int + 1,
                ) =~= before + (axis_config_cmds(av[i as int], i) + config_cmds_from(
                    av,
                    i as int + 1,
                )));
            }
            i = i + 1;
        }
        let ghost part1 = config_cmds_from(av, 0);
        proof {
            assert(config_cmds_from(av, NUMBER_OF_AXES as int) =~= Seq::<SetupCmdView>::empty());
            assert(cmd_views(cmds@) + Seq::<SetupCmdView>::empty() =~= cmd_views(cmds@));
            assert(cmd_views(cmds@) == part1);
            assert(part1 + Seq::<SetupCmdView>::empty() + limit_cmds_from(av, 0) =~= part1
                + limit_cmds_from(av, 0));
        }
        let mut i: usize = 0;
        while i < NUMBER_OF_AXES
            invariant
                self.wf(),
                i <= NUMBER_OF_AXES,
                av == self.axes_view(),
                part1 == config_cmds_from(av, 0),
                cmd_views(cmds@) + limit_cmds_from(av, i as int) == part1 + limit_cmds_from(av, 0),
            decreases NUMBER_OF_AXES - i,
        {
            let ghost before = cmd_views(cmds@);
            push_limit_cmd(&mut cmds, &self.axes[i], i);
            proof {
                assert(av[i as int] == self.axes@[i as int]@);
                assert(before + limit_cmds(av[i as int], i) + limit_cmds_from(av, i as int + 1)
                    =~= before + (limit_cmds(av[i as int], i) + limit_cmds_from(av, i as int + 1)));
            }
            i = i + 1;
        }
        let ghost part2 = part1 + limit_cmds_from(av, 0);
        proof {
            assert(limit_cmds_from(av, NUMBER_OF_AXES as int) =~= Seq::<SetupCmdView>::empty());
            assert(cmd_views(cmds@) + Seq::<SetupCmdView>::empty() =~= cmd_views(cmds@));
            assert(cmd_views(cmds@) == part2);
            assert(part2 + Seq::<SetupCmdView>::empty() + tick_cmds_from(av, 0) =~= part2
                + tick_cmds_from(av, 0));
        }
        let mut i: usize = 0;
        while i < NUMBER_OF_AXES
            invariant
                self.wf(),
                i <= NUMBER_OF_AXES,
                av == self.axes_view(),
                part2 == config_cmds_from(av, 0) + limit_cmds_from(av, 0),
                cmd_views(cmds@) + tick_cmds_from(av, i as int) == part2 + tick_cmds_from(av, 0),
            decreases NUMBER_OF_AXES - i,
        {
            let ghost before = cmd_views(cmds@);
            push_tick_cmd(&mut cmds, &self.axes[i], i);
            proof {
                assert(av[i as int] == self.axes@[i as int]@);
                assert(before + tick_cmds(av[i as int], i) + tick_cmds_from(av, i as int + 1)
                    =~= before + (tick_cmds(av[i as int], i) + tick_cmds_from(av, i as int + 1)));
            }
            i = i + 1;
        }
        proof {
            assert(tick_cmds_from(av, NUMBER_OF_AXES as int) =~= Seq::<SetupCmdView>::empty());
            assert(cmd_views(cmds@) + Seq::<SetupCmdView>::empty() =~= cmd_views(cmds@));
            assert(cmd_views(cmds@) == part2 + tick_cmds_from(av, 0));
        }
        let ghost part3 = part2 + tick_cmds_from(av, 0);
        match &self.legend {
            Some((location, flags)) => {
                cmds.push(SetupCmd::Legend { location: *location, flags: *flags });
            },
            None => {},
        }
        proof {
            assert(cmd_views(cmds@) =~= part3 + legend_cmds(self.legend));
            assert(cmd_views(cmds@) =~= setup_cmds(*self));
        }
        cmds
    }

    /// Open the plot scope. `should_render` is the native library's answer
    /// to the open request: `false` means "do not render this frame", the
    /// plot is skipped entirely and no scope comes into being — that is not
    /// an error. `true` yields the token that all drawing calls require and
    /// that [`PlotToken::end`] must consume.
    pub fn begin(&self, plot_ui: &mut PlotUi, should_render: bool) -> (r: Option<PlotToken>)
        requires
            !old(plot_ui).is_plot_open(),
        ensures
            r is Some <==> should_render,
            !should_render ==> *final(plot_ui) == *old(plot_ui),
            final(plot_ui).is_plot_open() == should_render,
            final(plot_ui).colormaps() == old(plot_ui).colormaps(),
            final(plot_ui).style_colors() == old(plot_ui).style_colors(),
            final(plot_ui).style_vars() == old(plot_ui).style_vars(),
            r matches Some(t) ==> t.title() == self.title@,
    {
        if should_render {
            plot_ui.plot_open = true;
            Some(PlotToken { title: self.title.as_str().to_owned() })
        } else {
            None
        }
    }
}

impl Plot {
    /// Open the plot scope, run `body` on the token, and close the scope:
    /// [`Plot::begin`] and [`PlotToken::end`] in one call. When the native
    /// library agreed to render, the body has been run on a token of this
    /// plot — its postcondition holds of that token; when it declined, the
    /// frame state is untouched. Either way no scope stays open.
    pub fn build<F: FnOnce(&PlotToken)>(self, plot_ui: &mut PlotUi, should_render: bool, body: F)
        requires
            !old(plot_ui).is_plot_open(),
            forall|t: PlotToken| call_requires(body, (&t,)),
        ensures
            !final(plot_ui).is_plot_open(),
            final(plot_ui).colormaps() == old(plot_ui).colormaps(),
            final(plot_ui).style_colors() == old(plot_ui).style_colors(),
            final(plot_ui).style_vars() == old(plot_ui).style_vars(),
            should_render ==> (exists|t: PlotToken|
                t.title() == self.title@ && call_ensures(body, (&t,), ())),
            !should_render ==> *final(plot_ui) == *old(plot_ui),
    {
        if let Some(token) = self.begin(plot_ui, should_render) {
            let ghost witness = token;
            body(&token);
            proof {
                assert(witness.title() == self.title@ && call_ensures(body, (&witness,), ()));
            }
            token.end(plot_ui);
        }
    }
}

/// Bit patterns of the sentinel color (0.0, 0.0, 0.0, -1.0) that asks the
/// native library to pick the color itself.
pub const IMPLOT_AUTO_COLOR: (u32, u32, u32, u32) = (0, 0, 0, 0xBF80_0000);

/// Call record of an annotation.
#[derive(Debug)]
pub struct AnnotationDraw {
    /// Horizontal position in plot coordinates, as an `f64` bit pattern.
    pub x: u64,
    /// Vertical position in plot coordinates, as an `f64` bit pattern.
    pub y: u64,
    /// Annotation color components, as `f32` bit patterns.
    pub color: (u32, u32, u32, u32),
    /// Pixel offset from the position, as `f32` bit patterns.
    pub pixel_offset: (u32, u32),
    /// Whether the annotation is clamped into the plot area.
    pub clamp: bool,
    /// The annotation text.
    pub label: String,
}

/// Witness that a plot scope is open. Created only by [`Plot::begin`];
/// consumed, and the scope closed, by [`PlotToken::end`]. Every drawing
/// primitive takes a reference to one, so no drawing call can be produced
/// when no scope exists. The type is neither `Clone` nor `Copy`.
#[derive(Debug)]
pub struct PlotToken {
    pub(crate) title: String,
}

impl PlotToken {
    /// Title of the plot this token belongs to.
    pub closed spec fn title(self) -> Seq<char> {
        self.title@
    }

    /// Title of the plot this token belongs to, for diagnostics.
    pub fn plot_title(&self) -> (r: &String)
        ensures
            r@ == self.title(),
    {
        &self.title
    }

    /// Annotate the point `(x, y)` (plot coordinates, `f64` bit patterns)
    /// with a text, offset by whole pixels (`f32` bit patterns) and
    /// optionally clamped into the plot area. Without an explicit color the
    /// native library picks one ([`IMPLOT_AUTO_COLOR`]). The text must hold
    /// no NUL characters, since the native library receives it as a C
    /// string.
    pub fn annotation(
        &self,
        x: u64,
        y: u64,
        color: Option<(u32, u32, u32, u32)>,
        pix_offset: (u32, u32),
        clamp: bool,
        label: &str,
    ) -> (r: AnnotationDraw)
        requires
            str_no_nul(label@),
        ensures
            r.x == x,
            r.y == y,
            r.color == (match color {
                Some(c) => c,
                None => IMPLOT_AUTO_COLOR,
            }),
            r.pixel_offset == pix_offset,
            r.clamp == clamp,
            r.label@ == label@,
    {
        let color: (u32, u32, u32, u32) = match color {
            Some(c) => c,
            None => IMPLOT_AUTO_COLOR,
        };
        AnnotationDraw { x, y, color, pixel_offset: pix_offset, clamp, label: label.to_owned() }
    }

    /// Close the plot scope, consuming the token. Must be the last use of
    /// the scope; the shell forwards it as the native end-of-plot call.
    pub fn end(self, plot_ui: &mut PlotUi)
        ensures
            !final(plot_ui).is_plot_open(),
            final(plot_ui).colormaps() == old(plot_ui).colormaps(),
            final(plot_ui).style_colors() == old(plot_ui).style_colors(),
            final(plot_ui).style_vars() == old(plot_ui).style_vars(),
    {
        plot_ui.plot_open = false;
    }
}

/// Whether a scope or stack token that is going out of scope must abort the
/// process: it must when it was never released and no panic is already
/// unwinding. During unwinding the drop stays silent so the original error
/// is not replaced. This is the fail-loud rule for tokens that are dropped
/// instead of being closed or popped.
pub fn unreleased_token_verdict(released: bool, unwinding: bool) -> (abort: bool)
    ensures
        abort == (!released && !unwinding),
{
    !released && !unwinding
}

/// A tick text truncated to a fixed-size native buffer: at most `size - 1`
/// text bytes, then one terminating NUL.
pub open spec fn truncated_c_text(text: Seq<u8>, size: nat) -> Seq<u8> {
    let count = if text.len() < size - 1 {
        text.len() as int
    } else {
        size - 1
    };
    text.take(count).push(0u8)
}

/// Copy a formatted tick text into a fixed-size buffer as the native
/// formatting callback demands: at most `size - 1` bytes of the text, a
/// terminating NUL, never more than `size` bytes in all. Returns the buffer
/// contents and the count of bytes written. The native contract hands the
/// callback a positive buffer size.
pub fn format_into_buffer(text: &[u8], size: usize) -> (out: (Vec<u8>, usize))
    requires
        1 <= size,
    ensures
        out.0@ == truncated_c_text(text@, size as nat),
        out.1 == out.0@.len(),
        out.1 <= size,
{
    let count: usize = if text.len() < size - 1 {
        text.len()
    } else {
        size - 1
    };
    let mut buffer: Vec<u8> = Vec::new();
    let mut i: usize = 0;
    while i < count
        invariant
            i <= count,
            count <= text@.len(),
            buffer@ =~= text@.take(count as int).take(i as int),
        decreases count - i,
    {
        buffer.push(text[i]);
        proof {
            assert(buffer@ =~= text@.take(count as int).take(i as int + 1));
        }
        i = i + 1;
    }
    buffer.push(0);
    proof {
        assert(text@.take(count as int).take(count as int) =~= text@.take(count as int));
        assert(buffer@ =~= truncated_c_text(text@, size as nat));
    }
    let written: usize = count + 1;
    (buffer, written)
}

} // verus!
