use ant_leptos::styles::{
    apply_locale, apply_styles, apply_theme, apply_version_style, global_style,
};
use ant_leptos::VERSION;

#[test]
fn provider_styles_cover_modifiers_and_overrides() {
    let css = apply_styles();
    assert!(css.contains(".ant-config-provider {"));
    assert!(css.contains(".ant-config-provider-disabled * {"));
    assert!(css.contains(".ant-config-provider-sm {"));
    assert!(css.contains(".ant-config-provider-lg {"));
    assert!(css.contains("[data-theme='dark'] {"));
    assert!(css.contains("--ant-primary-color: #177ddc;"));
    assert!(css.contains("color-scheme: dark;"));
    assert!(css.contains("[data-theme='compact'] {"));
    assert!(css.contains("--ant-line-height-base: 1.66667;"));
}

#[test]
fn locale_styles_cover_rtl_and_switcher() {
    let css = apply_locale();
    assert!(css.contains(".ant-locale {"));
    assert!(css.contains("[dir=\"rtl\"] .ant-locale {"));
    assert!(css.contains(".ant-language-switcher button:hover {"));
    assert!(css.contains("var(--ant-primary-color)"));
}

#[test]
fn global_styles_reset_and_set_the_body() {
    let css = global_style();
    assert!(css.contains("box-sizing: border-box;"));
    assert!(css.contains("font-size: var(--ant-font-size-base);"));
    assert!(css.contains("line-height: 1.5715;"));
}

#[test]
fn theme_styles_declare_the_default_variables() {
    let css = apply_theme();
    assert!(css.starts_with(":root {"));
    assert!(css.contains("--ant-primary-color: #1890ff;"));
    assert!(css.contains("--ant-success-color: #52c41a;"));
    assert!(css.contains("--ant-warning-color: #faad14;"));
    assert!(css.contains("--ant-error-color: #f5222d;"));
    assert!(css.contains("--ant-font-size-base: 14px;"));
    assert!(css.contains("--ant-border-radius-base: 4px;"));
}

#[test]
fn version_styles_and_version_string() {
    let css = apply_version_style();
    assert!(css.contains(".ant-version {"));
    assert!(css.contains("font-size: 14px;"));
    assert_eq!(VERSION, "0.0.1");
}
