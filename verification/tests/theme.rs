use ant_leptos::theme::{ThemeAlgorithm, ThemeConfig, ThemeToken};

#[test]
fn default_token_values() {
    let t = ThemeToken::default();
    assert_eq!(t.primary_color, "#1890ff");
    assert_eq!(t.success_color, "#52c41a");
    assert_eq!(t.warning_color, "#faad14");
    assert_eq!(t.error_color, "#f5222d");
    assert_eq!(t.font_size_base, "14px");
    assert_eq!(t.border_radius_base, "4px");
    assert_eq!(t.line_height, "1.5715");
    assert_eq!(t.background, "#ffffff");
    assert_eq!(t.text_color, "rgba(0, 0, 0, 0.85)");
    assert_eq!(t.border_color, "#d9d9d9");
    assert_eq!(t.box_shadow, "0 2px 8px rgba(0, 0, 0, 0.15)");
    assert_eq!(t.disabled_opacity, "0.6");
    assert_eq!(t.disabled_bg, "#f5f5f5");
    assert_eq!(t.disabled_color, "rgba(0, 0, 0, 0.25)");
}

#[test]
fn apply_default_is_identity() {
    let mut t = ThemeToken::default();
    let before = t.clone();
    t.apply_algorithm(&ThemeAlgorithm::Default);
    assert_eq!(t, before);
}

#[test]
fn apply_dark_is_idempotent() {
    let mut once = ThemeToken::default();
    once.apply_algorithm(&ThemeAlgorithm::Dark);
    let mut twice = once.clone();
    twice.apply_algorithm(&ThemeAlgorithm::Dark);
    assert_eq!(twice, once);
}

#[test]
fn dark_and_compact_commute() {
    let mut dark_then_compact = ThemeToken::default();
    dark_then_compact.apply_algorithm(&ThemeAlgorithm::Dark);
    dark_then_compact.apply_algorithm(&ThemeAlgorithm::Compact);
    let mut compact_then_dark = ThemeToken::default();
    compact_then_dark.apply_algorithm(&ThemeAlgorithm::Compact);
    compact_then_dark.apply_algorithm(&ThemeAlgorithm::Dark);
    assert_eq!(dark_then_compact, compact_then_dark);
}

#[test]
fn dark_replaces_colors_and_keeps_sizes() {
    let mut t = ThemeToken::default();
    t.apply_algorithm(&ThemeAlgorithm::Dark);
    assert_eq!(t.primary_color, "#177ddc");
    assert_eq!(t.background, "#141414");
    assert_eq!(t.text_color, "rgba(255, 255, 255, 0.85)");
    assert_eq!(t.border_color, "#434343");
    assert_eq!(t.success_color, "#49aa19");
    assert_eq!(t.warning_color, "#d89614");
    assert_eq!(t.error_color, "#a61d24");
    assert_eq!(t.box_shadow, "0 2px 8px rgba(0, 0, 0, 0.45)");
    assert_eq!(t.disabled_bg, "#262626");
    assert_eq!(t.disabled_color, "rgba(255, 255, 255, 0.25)");
    assert_eq!(t.font_size_base, "14px");
    assert_eq!(t.border_radius_base, "4px");
    assert_eq!(t.line_height, "1.5715");
}

#[test]
fn compact_replaces_sizes_and_keeps_colors() {
    let mut t = ThemeToken::default();
    t.apply_algorithm(&ThemeAlgorithm::Compact);
    assert_eq!(t.font_size_base, "12px");
    assert_eq!(t.border_radius_base, "2px");
    assert_eq!(t.line_height, "1.66667");
    assert_eq!(t.primary_color, "#1890ff");
    assert_eq!(t.background, "#ffffff");
}

#[test]
fn apply_algorithms_folds_in_order() {
    let mut folded = ThemeToken::default();
    folded.apply_algorithms(&vec![ThemeAlgorithm::Dark, ThemeAlgorithm::Compact]);
    let mut stepwise = ThemeToken::default();
    stepwise.apply_algorithm(&ThemeAlgorithm::Dark);
    stepwise.apply_algorithm(&ThemeAlgorithm::Compact);
    assert_eq!(folded, stepwise);
}

#[test]
fn resolved_token_applies_algorithms() {
    let mut config = ThemeConfig::default();
    config.algorithm = Some(vec![ThemeAlgorithm::Dark]);
    let resolved = config.resolved_token();
    assert_eq!(resolved.primary_color, "#177ddc");
    assert_eq!(resolved.background, "#141414");

    let plain = ThemeConfig::default();
    assert_eq!(plain.resolved_token(), ThemeToken::default());
}

#[test]
fn theme_config_default_colors_follow_token() {
    let config = ThemeConfig::default();
    assert_eq!(config.primary_color, "#1890ff");
    assert_eq!(config.info_color, "#1890ff");
    assert_eq!(config.success_color, "#52c41a");
    assert_eq!(config.warning_color, "#faad14");
    assert_eq!(config.error_color, "#f5222d");
    assert!(config.algorithm.is_none());
    assert_eq!(config.components.len(), 0);
    assert!(config.hash_id.is_none());
    assert!(config.css_var_prefix.is_none());
    assert!(config.inline.is_none());
}
