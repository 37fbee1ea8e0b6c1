//! Drawing primitives: effective counts, empty-input no-ops, defaults and
//! sentinel encodings.

use implot::context::Context;
use implot::plot_elements::{
    PlotBars, PlotBin, PlotBinMethod, PlotColormap, PlotHeatmap, PlotHistogram, PlotLine,
    PlotPieChart, PlotScatter, PlotShaded, PlotStairs, PlotStems, PlotText, BARS_HORIZONTAL,
    HEATMAP_COL_MAJOR, STEMS_HORIZONTAL, TEXT_VERTICAL,
};
use implot::{Colormap, ColormapPreset, Plot, PlotPoint, PlotRange, PlotToken, PlotUi};

fn bits(values: &[f64]) -> Vec<u64> {
    values.iter().map(|v| v.to_bits()).collect()
}

fn with_scope<F: FnOnce(&PlotToken)>(f: F) {
    let ctx = Context::create(true, false).unwrap();
    let mut ui: PlotUi = ctx.get_plot_ui();
    let plot = Plot::new("scope");
    let token = plot.begin(&mut ui, true).unwrap();
    f(&token);
    token.end(&mut ui);
}

#[test]
fn line_uses_minimum_length() {
    with_scope(|scope| {
        let x = bits(&[0.0, 1.0, 2.0, 3.0, 4.0]);
        let y = bits(&[5.0, 6.0, 7.0]);
        let d = PlotLine::new("five by three").plot(scope, &x, &y).unwrap();
        // Five x values and three y values plot exactly three points, so
        // neither buffer is read past its end.
        assert_eq!(d.count, 3);
        assert_eq!(d.label, "five by three");
        assert_eq!(d.offset, 0);
        assert_eq!(d.stride, 8);
    });
}

#[test]
fn empty_input_is_a_silent_no_op() {
    with_scope(|scope| {
        let none: Vec<u64> = Vec::new();
        let some = bits(&[1.0, 2.0]);
        assert!(PlotLine::new("l").plot(scope, &none, &some).is_none());
        assert!(PlotLine::new("l").plot(scope, &some, &none).is_none());
        assert!(PlotStairs::new("s").plot(scope, &none, &some).is_none());
        assert!(PlotScatter::new("c").plot(scope, &some, &none).is_none());
        assert!(PlotBars::new("b").plot(scope, &none, &some, false).is_none());
        assert!(PlotStems::new("m").plot(scope, &some, &none, false).is_none());
        assert!(PlotShaded::new("h").plot(scope, &none, &some, &some).is_none());
        assert!(PlotShaded::new("h").plot(scope, &some, &some, &none).is_none());
    });
}

#[test]
fn stairs_and_scatter_counts() {
    with_scope(|scope| {
        let x = bits(&[0.0, 1.0]);
        let y = bits(&[2.0, 3.0, 4.0]);
        assert_eq!(PlotStairs::new("s").plot(scope, &x, &y).unwrap().count, 2);
        assert_eq!(PlotScatter::new("c").plot(scope, &y, &x).unwrap().count, 2);
    });
}

#[test]
fn bars_defaults_and_horizontal_flag() {
    with_scope(|scope| {
        let p = bits(&[0.0, 1.0]);
        let v = bits(&[2.0, 3.0]);
        let bars = PlotBars::new("b");
        assert_eq!(bars.bar_width, 0.67f64.to_bits());
        let d = bars.plot(scope, &p, &v, true).unwrap();
        assert_eq!(d.flags, BARS_HORIZONTAL);
        assert_eq!(d.count, 2);
        let bars = PlotBars::new("b").with_bar_width(0.5f64.to_bits());
        let d = bars.plot(scope, &p, &v, false).unwrap();
        assert_eq!(d.flags, 0);
        assert_eq!(d.bar_width, 0.5f64.to_bits());
    });
}

#[test]
fn stems_reference_and_flag() {
    with_scope(|scope| {
        let p = bits(&[0.0, 1.0]);
        let v = bits(&[2.0, 3.0]);
        let d = PlotStems::new("m")
            .with_reference_y(1.0f64.to_bits())
            .plot(scope, &p, &v, true)
            .unwrap();
        assert_eq!(d.reference_y, 1.0f64.to_bits());
        assert_eq!(d.flags, STEMS_HORIZONTAL);
    });
}

#[test]
fn shaded_uses_minimum_of_three() {
    with_scope(|scope| {
        let xs = bits(&[0.0, 1.0, 2.0, 3.0]);
        let y1 = bits(&[0.0, 1.0, 2.0]);
        let y2 = bits(&[0.0, 1.0]);
        let d = PlotShaded::new("h").plot(scope, &xs, &y1, &y2).unwrap();
        assert_eq!(d.count, 2);
    });
}

#[test]
fn text_empty_is_a_no_op() {
    with_scope(|scope| {
        assert!(PlotText::new("")
            .plot(scope, 0, 0, false)
            .is_none());
        let d = PlotText::new("hi")
            .with_pixel_offset(3.0f32.to_bits(), 4.0f32.to_bits())
            .plot(scope, 1.0f64.to_bits(), 2.0f64.to_bits(), true)
            .unwrap();
        assert_eq!(d.text, "hi");
        assert_eq!(d.flags, TEXT_VERTICAL);
        assert_eq!(d.pixel_offset_x, 3.0f32.to_bits());
        assert_eq!(d.pixel_offset_y, 4.0f32.to_bits());
    });
}

#[test]
fn heatmap_auto_scale_scans_data() {
    with_scope(|scope| {
        let values = bits(&[1.0, 5.0, -2.0, 3.0]);
        let d = PlotHeatmap::new("heat").plot(scope, &values, 2, 2, false).unwrap();
        // With no explicit scale, one linear scan yields (-2.0, 5.0).
        assert_eq!(f64::from_bits(d.scale_min), -2.0);
        assert_eq!(f64::from_bits(d.scale_max), 5.0);
        assert_eq!((d.rows, d.cols), (2, 2));
        assert_eq!(d.flags, 0);
        assert_eq!(d.label_format.as_deref(), Some("%.1f"));
        assert_eq!(d.bounds_min, PlotPoint { x: 0, y: 0 });
        assert_eq!(
            d.bounds_max,
            PlotPoint { x: 1.0f64.to_bits(), y: 1.0f64.to_bits() }
        );
    });
}

#[test]
fn heatmap_explicit_scale_and_options() {
    with_scope(|scope| {
        let values = bits(&[1.0, 5.0, -2.0, 3.0]);
        let d = PlotHeatmap::new("heat")
            .with_scale(0.0f64.to_bits(), 10.0f64.to_bits())
            .with_label_format(None)
            .with_drawing_area(
                PlotPoint { x: (-1.0f64).to_bits(), y: (-1.0f64).to_bits() },
                PlotPoint { x: 2.0f64.to_bits(), y: 2.0f64.to_bits() },
            )
            .plot(scope, &values, 4, 1, true)
            .unwrap();
        assert_eq!(f64::from_bits(d.scale_min), 0.0);
        assert_eq!(f64::from_bits(d.scale_max), 10.0);
        assert!(d.label_format.is_none());
        assert_eq!(d.flags, HEATMAP_COL_MAJOR);
        assert_eq!(f64::from_bits(d.bounds_max.x), 2.0);
    });
}

#[test]
fn heatmap_scale_orders_signed_zero() {
    with_scope(|scope| {
        // The scale scan follows the IEEE total order on the encodings:
        // -0.0 sorts just below +0.0.
        let values = vec![0.0f64.to_bits(), (-0.0f64).to_bits()];
        let d = PlotHeatmap::new("zeros").plot(scope, &values, 1, 2, false).unwrap();
        assert_eq!(d.scale_min, (-0.0f64).to_bits());
        assert_eq!(d.scale_max, 0.0f64.to_bits());
    });
}

#[test]
fn heatmap_empty_is_a_silent_no_op() {
    with_scope(|scope| {
        let none: Vec<u64> = Vec::new();
        assert!(PlotHeatmap::new("heat").plot(scope, &none, 0, 0, false).is_none());
        assert!(PlotHeatmap::new("heat")
            .with_scale(0, 1.0f64.to_bits())
            .plot(scope, &none, 0, 0, false)
            .is_none());
    });
}

#[test]
fn heatmap_auto_scale_skips_nan() {
    with_scope(|scope| {
        let values = bits(&[1.0, f64::NAN, -2.0, 5.0]);
        let d = PlotHeatmap::new("heat").plot(scope, &values, 2, 2, false).unwrap();
        assert_eq!(f64::from_bits(d.scale_min), -2.0);
        assert_eq!(f64::from_bits(d.scale_max), 5.0);
        // A leading NaN is displaced by the first real sample.
        let values = bits(&[f64::NAN, 3.0]);
        let d = PlotHeatmap::new("heat").plot(scope, &values, 1, 2, false).unwrap();
        assert_eq!(f64::from_bits(d.scale_min), 3.0);
        assert_eq!(f64::from_bits(d.scale_max), 3.0);
    });
}

#[test]
fn heatmap_all_nan_keeps_first_sample() {
    with_scope(|scope| {
        let values = bits(&[f64::NAN, f64::NAN]);
        let d = PlotHeatmap::new("heat").plot(scope, &values, 1, 2, false).unwrap();
        assert_eq!(d.scale_min, f64::NAN.to_bits());
        assert_eq!(d.scale_max, f64::NAN.to_bits());
    });
}

#[test]
fn pie_chart_empty_is_a_silent_no_op() {
    with_scope(|scope| {
        let no_values: Vec<u64> = Vec::new();
        assert!(PlotPieChart::new()
            .plot(scope, vec!["a".to_string()], &no_values, 0, 0, 0, None)
            .is_none());
        assert!(PlotPieChart::new()
            .plot(scope, Vec::new(), &bits(&[1.0]), 0, 0, 0, None)
            .is_none());
    });
}

#[test]
fn histogram_bin_encodings() {
    with_scope(|scope| {
        let values = bits(&[1.0, 2.0, 2.5]);
        let hist = PlotHistogram::new("hist");
        let auto = hist.plot(scope, &values, PlotBin::Auto(PlotBinMethod::Sturges), None, None);
        // Named automatic methods map to the negative sentinel codes of the
        // native header; a manual specification is the positive count.
        assert_eq!(auto.bins, -2);
        assert_eq!(auto.count, 3);
        assert_eq!(f64::from_bits(auto.bar_scale), 1.0);
        assert_eq!(auto.range, PlotRange { min: 0, max: 0 });
        let manual = hist.plot(scope, &values, PlotBin::Manual(10), None, None);
        assert_eq!(manual.bins, 10);
    });
}

#[test]
fn histogram_all_auto_methods() {
    with_scope(|scope| {
        let values = bits(&[1.0]);
        let hist = PlotHistogram::new("hist");
        let codes: Vec<i32> = [
            PlotBinMethod::Sqrt,
            PlotBinMethod::Sturges,
            PlotBinMethod::Rice,
            PlotBinMethod::Scott,
        ]
        .into_iter()
        .map(|m| hist.plot(scope, &values, PlotBin::Auto(m), None, None).bins)
        .collect();
        assert_eq!(codes, vec![-1, -2, -3, -4]);
    });
}

#[test]
fn histogram_explicit_options() {
    with_scope(|scope| {
        let values = bits(&[1.0, 2.0]);
        let range = PlotRange {
            min: 0.0f64.to_bits(),
            max: 4.0f64.to_bits(),
        };
        let d = PlotHistogram::new("hist").plot(
            scope,
            &values,
            PlotBin::Manual(4),
            Some(2.0f64.to_bits()),
            Some(range),
        );
        assert_eq!(f64::from_bits(d.bar_scale), 2.0);
        assert_eq!(d.range, range);
    });
}

#[test]
fn pie_chart_counts_and_defaults() {
    with_scope(|scope| {
        let labels = vec!["a".to_string(), "b".to_string(), "c".to_string()];
        let values = bits(&[1.0, 2.0]);
        let d = PlotPieChart::new()
            .plot(
                scope,
                labels,
                &values,
                0.5f64.to_bits(),
                0.5f64.to_bits(),
                0.4f64.to_bits(),
                None,
            )
            .unwrap();
        assert_eq!(d.count, 2);
        assert_eq!(f64::from_bits(d.angle0), 90.0);
        assert_eq!(d.fmt, "%.1f");
        assert_eq!(d.labels.len(), 3);
    });
}

#[test]
fn pie_chart_custom_format_and_angle() {
    with_scope(|scope| {
        let d = PlotPieChart::default()
            .with_label_format("%.3f")
            .plot(
                scope,
                vec!["x".to_string()],
                &bits(&[1.0]),
                0,
                0,
                0,
                Some(45.0f64.to_bits()),
            )
            .unwrap();
        assert_eq!(d.fmt, "%.3f");
        assert_eq!(f64::from_bits(d.angle0), 45.0);
        assert_eq!(d.count, 1);
    });
}

#[test]
fn colormap_scale_defaults() {
    with_scope(|scope| {
        let cm = PlotColormap::new("scale");
        let d = cm.plot(scope, 0, 1.0f64.to_bits(), None, None);
        assert_eq!(d.fmt, "%g");
        assert_eq!(d.cmap, -1);
        assert_eq!((d.size_x, d.size_y), (0, 0));
        let d = cm.plot(
            scope,
            0,
            1.0f64.to_bits(),
            Some((100.0f32.to_bits(), 20.0f32.to_bits())),
            Some(Colormap::Preset(ColormapPreset::Viridis)),
        );
        assert_eq!(d.cmap, 4);
        assert_eq!(d.size_x, 100.0f32.to_bits());
    });
}

#[test]
fn colormap_scale_custom_format() {
    with_scope(|scope| {
        let d = PlotColormap::new("scale")
            .with_format("%.2f")
            .with_scale_flags(1)
            .plot(scope, 0, 0, None, Some(Colormap::Custom(9)));
        assert_eq!(d.fmt, "%.2f");
        assert_eq!(d.flags, 1);
        assert_eq!(d.cmap, 9);
    });
}
