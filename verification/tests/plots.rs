//! Plot descriptors, the scope protocol, and the setup command sequence.

use implot::context::Context;
use implot::plot::{
    axis_index_or_auto, format_into_buffer, unreleased_token_verdict, AxisChoice, AxisScale,
    PlotCond, SetupCmd, IMPLOT_AUTO,
};
use implot::{Plot, PlotRange};

#[test]
fn begin_none_when_native_declines() {
    let ctx = Context::create(true, false).unwrap();
    let mut ui = ctx.get_plot_ui();
    let plot = Plot::new("hidden");
    // "Do not render this frame" yields no scope at all, so no drawing
    // primitive can even be called for this plot: they all need the token.
    assert!(plot.begin(&mut ui, false).is_none());
}

#[test]
fn begin_some_then_end() {
    let ctx = Context::create(true, false).unwrap();
    let mut ui = ctx.get_plot_ui();
    let plot = Plot::new("shown");
    let token = plot.begin(&mut ui, true).unwrap();
    assert_eq!(token.plot_title().as_str(), "shown");
    token.end(&mut ui);
}

#[test]
fn build_runs_body_only_when_rendering() {
    let ctx = Context::create(true, false).unwrap();
    let mut ui = ctx.get_plot_ui();
    let mut ran = false;
    Plot::new("a").build(&mut ui, true, |_token| {
        ran = true;
    });
    assert!(ran);
    let mut ran = false;
    Plot::new("b").build(&mut ui, false, |_token| {
        ran = true;
    });
    assert!(!ran);
}

#[test]
fn default_plot_enables_primary_axes() {
    let plot = Plot::new("p");
    let cmds = plot.setup_commands();
    let axes: Vec<usize> = cmds
        .iter()
        .filter_map(|c| match c {
            SetupCmd::Axis { axis, .. } => Some(*axis),
            _ => None,
        })
        .collect();
    assert_eq!(axes, vec![0, 3]);
    for c in &cmds {
        if let SetupCmd::Scale { scale, .. } = c {
            assert_eq!(*scale, AxisScale::Linear);
        }
    }
    assert_eq!(plot.size_x, 400.0f32.to_bits());
    assert_eq!(plot.size_y, 400.0f32.to_bits());
}

#[test]
fn ticks_with_labels_forwarded_exactly() {
    let pairs = vec![
        (0.0f64.to_bits(), "a".to_string()),
        (1.0f64.to_bits(), "b".to_string()),
        (2.0f64.to_bits(), "c".to_string()),
    ];
    let plot = Plot::new("t").x_ticks_with_labels(&pairs, false);
    let cmds = plot.setup_commands();
    let ticks: Vec<&SetupCmd> = cmds
        .iter()
        .filter(|c| matches!(c, SetupCmd::Ticks { .. }))
        .collect();
    assert_eq!(ticks.len(), 1);
    match ticks[0] {
        SetupCmd::Ticks { axis, positions, labels, show_default } => {
            assert_eq!(*axis, 0);
            assert_eq!(
                positions,
                &vec![0.0f64.to_bits(), 1.0f64.to_bits(), 2.0f64.to_bits()]
            );
            assert_eq!(
                labels.as_ref().unwrap(),
                &vec!["a".to_string(), "b".to_string(), "c".to_string()]
            );
            // Default ticks are suppressed: exactly the three given pairs
            // reach the native tick call.
            assert!(!show_default);
        }
        _ => unreachable!(),
    }
}

#[test]
fn ticks_without_labels() {
    let plot = Plot::new("t").axis_ticks(AxisChoice::Y2, &[5.0f64.to_bits()], true);
    let cmds = plot.setup_commands();
    let tick = cmds
        .iter()
        .find(|c| matches!(c, SetupCmd::Ticks { .. }))
        .unwrap();
    match tick {
        SetupCmd::Ticks { axis, positions, labels, show_default } => {
            assert_eq!(*axis, 4);
            assert_eq!(positions, &vec![5.0f64.to_bits()]);
            assert!(labels.is_none());
            assert!(*show_default);
        }
        _ => unreachable!(),
    }
}

#[test]
fn limits_command_emitted() {
    let range = PlotRange {
        min: (-1.5f64).to_bits(),
        max: 1.5f64.to_bits(),
    };
    let plot = Plot::new("l").x_limits(range, PlotCond::Always);
    let cmds = plot.setup_commands();
    let found = cmds.iter().any(|c| match c {
        SetupCmd::Limits { axis, range: r, cond } => {
            *axis == 0 && *r == range && *cond == PlotCond::Always
        }
        _ => false,
    });
    assert!(found);
}

#[test]
fn linked_limits_command_emitted() {
    let plot = Plot::new("l").linked_y1_limits(42);
    let cmds = plot.setup_commands();
    let found = cmds.iter().any(|c| match c {
        SetupCmd::LinkedLimits { axis, link } => *axis == 3 && *link == 42,
        _ => false,
    });
    assert!(found);
}

#[test]
fn labels_and_legend_in_setup() {
    let plot = Plot::new("p")
        .x_label("time")
        .with_legend_location(&implot::PlotLocation::NorthEast, 0);
    let cmds = plot.setup_commands();
    let label_ok = cmds.iter().any(|c| match c {
        SetupCmd::Axis { axis, label, .. } => {
            *axis == 0 && label.as_deref() == Some("time")
        }
        _ => false,
    });
    assert!(label_ok);
    assert!(matches!(
        cmds.last().unwrap(),
        SetupCmd::Legend { location: implot::PlotLocation::NorthEast, flags: 0 }
    ));
    assert_eq!(implot::PlotLocation::NorthEast.code(), 9);
}

#[test]
fn scale_and_flags_in_setup() {
    let plot = Plot::new("s")
        .with_axis_scale(AxisChoice::Y1, &AxisScale::Log10)
        .with_x1_flags(32);
    let cmds = plot.setup_commands();
    let log_y1 = cmds.iter().any(|c| match c {
        SetupCmd::Scale { axis, scale } => *axis == 3 && *scale == AxisScale::Log10,
        _ => false,
    });
    assert!(log_y1);
    let flagged_x1 = cmds.iter().any(|c| match c {
        SetupCmd::Axis { axis, flags, .. } => *axis == 0 && *flags == 32,
        _ => false,
    });
    assert!(flagged_x1);
}

#[test]
fn constraints_in_setup() {
    let plot = Plot::new("c")
        .axis_limits_constraints(AxisChoice::X1, 0.0f64.to_bits(), 9.0f64.to_bits())
        .axis_zoom_constraints(AxisChoice::X1, 0.1f64.to_bits(), 5.0f64.to_bits());
    let cmds = plot.setup_commands();
    let limits_ok = cmds.iter().any(|c| match c {
        SetupCmd::LimitsConstraints { axis, min, max } => {
            *axis == 0 && *min == 0.0f64.to_bits() && *max == 9.0f64.to_bits()
        }
        _ => false,
    });
    let zoom_ok = cmds.iter().any(|c| match c {
        SetupCmd::ZoomConstraints { axis, min, max } => {
            *axis == 0 && *min == 0.1f64.to_bits() && *max == 5.0f64.to_bits()
        }
        _ => false,
    });
    assert!(limits_ok && zoom_ok);
}

#[test]
fn axis_formats_in_setup() {
    let plot = Plot::new("f")
        .axis_format(AxisChoice::X1, implot::AxisFormat::FormatString("%g s".to_string()))
        .axis_format(AxisChoice::Y1, implot::AxisFormat::Callback(7));
    let cmds = plot.setup_commands();
    let fmt_ok = cmds.iter().any(|c| match c {
        SetupCmd::FormatString { axis, fmt } => *axis == 0 && fmt == "%g s",
        _ => false,
    });
    let cb_ok = cmds.iter().any(|c| match c {
        SetupCmd::FormatCallback { axis, callback } => *axis == 3 && *callback == 7,
        _ => false,
    });
    assert!(fmt_ok && cb_ok);
}

#[test]
fn disabled_axes_emit_nothing() {
    let plot = Plot::new("d");
    let cmds = plot.setup_commands();
    for c in &cmds {
        let axis = match c {
            SetupCmd::Axis { axis, .. } => Some(*axis),
            SetupCmd::Scale { axis, .. } => Some(*axis),
            _ => None,
        };
        if let Some(axis) = axis {
            assert!(axis == 0 || axis == 3);
        }
    }
}

#[test]
fn axis_or_auto_mapping() {
    assert_eq!(axis_index_or_auto(Some(AxisChoice::Y2)), 4);
    assert_eq!(axis_index_or_auto(None), IMPLOT_AUTO);
    assert_eq!(IMPLOT_AUTO, -1);
}

#[test]
fn unreleased_token_rules() {
    // Dropping an unreleased token outside unwinding must fail loudly,
    // exactly once, in the shell's drop hook; during unwinding it stays
    // silent; a released token never aborts.
    assert!(unreleased_token_verdict(false, false));
    assert!(!unreleased_token_verdict(true, false));
    assert!(!unreleased_token_verdict(false, true));
    assert!(!unreleased_token_verdict(true, true));
}

#[test]
fn format_buffer_truncates_safely() {
    let (buf, written) = format_into_buffer(b"123456789", 5);
    assert_eq!(buf, vec![b'1', b'2', b'3', b'4', 0]);
    assert_eq!(written, 5);
}

#[test]
fn format_buffer_short_text() {
    let (buf, written) = format_into_buffer(b"ab", 32);
    assert_eq!(buf, vec![b'a', b'b', 0]);
    assert_eq!(written, 3);
}

#[test]
fn format_buffer_exact_fit() {
    let (buf, written) = format_into_buffer(b"abcd", 5);
    assert_eq!(buf, vec![b'a', b'b', b'c', b'd', 0]);
    assert_eq!(written, 5);
}

#[test]
fn annotation_defaults() {
    let ctx = Context::create(true, false).unwrap();
    let mut ui = ctx.get_plot_ui();
    let plot = Plot::new("p");
    let token = plot.begin(&mut ui, true).unwrap();
    let a = token.annotation(
        1.0f64.to_bits(),
        2.0f64.to_bits(),
        None,
        (0, 0),
        true,
        "note",
    );
    assert_eq!(a.color, (0, 0, 0, (-1.0f32).to_bits()));
    assert_eq!(a.label, "note");
    assert!(a.clamp);
    token.end(&mut ui);
}

#[test]
fn scale_codes() {
    assert_eq!(AxisScale::Linear.code(), 0);
    assert_eq!(AxisScale::Time.code(), 1);
    assert_eq!(AxisScale::Log10.code(), 2);
    assert_eq!(AxisScale::SymLog.code(), 3);
    assert_eq!(PlotCond::Always.code(), 1);
    assert_eq!(PlotCond::Once.code(), 2);
}
