//! Stack discipline: pushes, pops, and rejected pops.

use implot::context::Context;
use implot::{Colormap, ColormapPreset, PlotColorElement, StackError, StyleVar};

#[test]
fn context_create_needs_gui_and_uniqueness() {
    assert!(Context::create(false, false).is_none());
    assert!(Context::create(true, true).is_none());
    assert!(Context::create(false, true).is_none());
    assert!(Context::create(true, false).is_some());
}

#[test]
fn colormap_push_pop_in_order() {
    let ctx = Context::create(true, false).unwrap();
    let mut ui = ctx.get_plot_ui();
    let t1 = ui.push_colormap_from_preset(ColormapPreset::Viridis);
    let t2 = ui.push_colormap(Colormap::Custom(17));
    assert!(ui.pop_colormap(t2).is_ok());
    assert!(ui.pop_colormap(t1).is_ok());
}

#[test]
fn colormap_pop_out_of_order_rejected() {
    let ctx = Context::create(true, false).unwrap();
    let mut ui = ctx.get_plot_ui();
    let t1 = ui.push_colormap_from_preset(ColormapPreset::Deep);
    let _t2 = ui.push_colormap_from_preset(ColormapPreset::Jet);
    assert_eq!(ui.pop_colormap(t1), Err(StackError::NotOnTop));
}

#[test]
fn pop_on_empty_stack_rejected() {
    let ctx = Context::create(true, false).unwrap();
    let mut donor = ctx.get_plot_ui();
    let mut ui = ctx.get_plot_ui();
    // A token minted by another frame handle finds this stack empty: more
    // pops than pushes are rejected before any native pop could happen.
    let stray = donor.push_colormap_from_preset(ColormapPreset::Hot);
    assert_eq!(ui.pop_colormap(stray), Err(StackError::Empty));
}

#[test]
fn style_var_push_pop() {
    let ctx = Context::create(true, false).unwrap();
    let mut ui = ctx.get_plot_ui();
    let t1 = ui.push_style_var_f32(&StyleVar::LineWeight, 11.0f32.to_bits());
    let t2 = ui.push_style_var_i32(&StyleVar::Marker, 3);
    let t3 = ui.push_style_var_imvec2(
        &StyleVar::PlotPadding,
        4.0f32.to_bits(),
        4.0f32.to_bits(),
    );
    assert!(ui.pop_style_var(t3).is_ok());
    assert!(ui.pop_style_var(t2).is_ok());
    assert!(ui.pop_style_var(t1).is_ok());
}

#[test]
fn style_color_push_pop_and_out_of_order() {
    let ctx = Context::create(true, false).unwrap();
    let mut ui = ctx.get_plot_ui();
    let t1 = ui.push_style_color(
        &PlotColorElement::Line,
        1.0f32.to_bits(),
        1.0f32.to_bits(),
        1.0f32.to_bits(),
        0.2f32.to_bits(),
    );
    let t2 = ui.push_style_color(
        &PlotColorElement::PlotBg,
        0.0f32.to_bits(),
        0.0f32.to_bits(),
        0.0f32.to_bits(),
        1.0f32.to_bits(),
    );
    // The three stacks are distinct token types, so a style-color token can
    // only ever reach the style-color stack; within it, LIFO is enforced.
    assert_eq!(ui.pop_style_color(t1), Err(StackError::NotOnTop));
    let t1 = {
        assert!(ui.pop_style_color(t2).is_ok());
        // After the top was released the older token becomes poppable.
        ui.push_style_color(
            &PlotColorElement::Fill,
            0.5f32.to_bits(),
            0.5f32.to_bits(),
            0.5f32.to_bits(),
            1.0f32.to_bits(),
        )
    };
    assert!(ui.pop_style_color(t1).is_ok());
}

#[test]
fn style_stacks_are_independent() {
    let ctx = Context::create(true, false).unwrap();
    let mut ui = ctx.get_plot_ui();
    let cm = ui.push_colormap_from_preset(ColormapPreset::Cool);
    let sv = ui.push_style_var_i32(&StyleVar::Marker, 1);
    // Popping the style-variable stack first is fine: it is a different
    // stack, and each stack only compares against its own entries.
    assert!(ui.pop_style_var(sv).is_ok());
    assert!(ui.pop_colormap(cm).is_ok());
}

#[test]
fn colormap_indices() {
    assert_eq!(Colormap::Preset(ColormapPreset::Deep).to_index(), 0);
    assert_eq!(Colormap::Preset(ColormapPreset::Viridis).to_index(), 4);
    assert_eq!(Colormap::Preset(ColormapPreset::Greys).to_index(), 15);
    assert_eq!(Colormap::Custom(23).to_index(), 23);
}

#[test]
fn colormap_lookup_interpretation() {
    assert_eq!(implot::colormap_from_lookup(7), Some(Colormap::Custom(7)));
    assert_eq!(implot::colormap_from_lookup(-1), None);
}

#[test]
fn style_indices() {
    assert_eq!(StyleVar::LineWeight.index(), 0);
    assert_eq!(StyleVar::Marker.index(), 1);
    assert_eq!(StyleVar::PlotMinSize.index(), 26);
    assert_eq!(PlotColorElement::Line.index(), 0);
    assert_eq!(PlotColorElement::Crosshairs.index(), 20);
}

#[test]
fn nul_detection() {
    assert!(implot::contains_nul("a\0b"));
    assert!(!implot::contains_nul("ab"));
    assert!(!implot::contains_nul(""));
}
