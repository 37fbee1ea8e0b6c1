//! The naming rules for the generated raw layer.

use implot::naming::{snake_case, Callbacks};

#[test]
fn snake_case_splits_at_capitals() {
    assert_eq!(snake_case("LineWeight"), "LINE_WEIGHT");
    assert_eq!(snake_case("NoTitle"), "NO_TITLE");
}

#[test]
fn snake_case_upper_cases_plain_words() {
    assert_eq!(snake_case("abc"), "ABC");
    assert_eq!(snake_case(""), "");
    assert_eq!(snake_case("x2"), "X2");
}

#[test]
fn snake_case_normalizes_nan() {
    // "NaN" reads as one word, not as two capitals.
    assert_eq!(snake_case("SkipNaN"), "SKIP_NAN");
    assert_eq!(snake_case("NaN"), "NAN");
}

#[test]
fn variant_name_for_bitflag_enum() {
    let cb = Callbacks;
    assert_eq!(
        cb.enum_variant_name(Some("ImPlotFlags_"), "ImPlotFlags_NoTitle"),
        Some("NO_TITLE".to_string())
    );
}

#[test]
fn variant_name_for_plain_enum() {
    let cb = Callbacks;
    assert_eq!(
        cb.enum_variant_name(Some("ImPlotCol_"), "ImPlotCol_Line"),
        Some("Line".to_string())
    );
}

#[test]
fn variant_name_for_axis_enum() {
    let cb = Callbacks;
    assert_eq!(
        cb.enum_variant_name(Some("ImAxis_"), "ImAxis_X1"),
        Some("X1".to_string())
    );
    // Only the exact axis enum name qualifies.
    assert_eq!(cb.enum_variant_name(Some("ImAxisOther"), "ImAxisOther_X1"), None);
}

#[test]
fn variant_name_foreign_enums_untouched() {
    let cb = Callbacks;
    assert_eq!(cb.enum_variant_name(Some("ImGuiCond_"), "ImGuiCond_Always"), None);
    assert_eq!(cb.enum_variant_name(None, "Whatever"), None);
}

#[test]
fn variant_name_without_underscore_keeps_whole_name() {
    let cb = Callbacks;
    assert_eq!(
        cb.enum_variant_name(Some("ImPlotCol_"), "Line"),
        Some("Line".to_string())
    );
}
