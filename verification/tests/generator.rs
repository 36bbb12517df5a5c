use ant_leptos::component_token::{ComponentToken, ComponentTokenMap};
use ant_leptos::generator::CSSVariablesGenerator;
use ant_leptos::theme::{ThemeAlgorithm, ThemeToken};

#[test]
fn root_block_holds_every_token_declaration() {
    let css = CSSVariablesGenerator::new(ThemeToken::default()).generate();
    assert!(css.contains("--ant-primary-color: #1890ff;"));
    assert!(css.contains("--ant-success-color: #52c41a;"));
    assert!(css.contains("--ant-warning-color: #faad14;"));
    assert!(css.contains("--ant-error-color: #f5222d;"));
    assert!(css.contains("--ant-font-size-base: 14px;"));
    assert!(css.contains("--ant-border-radius-base: 4px;"));
    assert!(css.contains("--ant-line-height: 1.5715;"));
    assert!(css.contains("--ant-background: #ffffff;"));
    assert!(css.contains("--ant-text-color: rgba(0, 0, 0, 0.85);"));
    assert!(css.contains("--ant-border-color: #d9d9d9;"));
    assert!(css.contains("--ant-box-shadow: 0 2px 8px rgba(0, 0, 0, 0.15);"));
    assert!(css.contains("--ant-disabled-opacity: 0.6;"));
    assert!(css.contains("--ant-disabled-bg: #f5f5f5;"));
    assert!(css.contains("--ant-disabled-color: rgba(0, 0, 0, 0.25);"));
}

#[test]
fn one_root_block_and_no_component_blocks_by_default() {
    let css = CSSVariablesGenerator::new(ThemeToken::default()).generate();
    assert_eq!(css.matches(":root {").count(), 1);
    assert!(css.contains("--ant-primary-color: #1890ff;"));
    // three rule blocks in all: the global one and the two fixed overrides
    assert_eq!(css.matches("{\n").count(), 3);
    assert_eq!(css.matches("[data-theme='dark'] {").count(), 1);
    assert_eq!(css.matches("[data-theme='compact'] {").count(), 1);
}

#[test]
fn derived_primary_variants() {
    let css = CSSVariablesGenerator::new(ThemeToken::default()).generate();
    assert!(css.contains("--ant-primary-color-hover: color-mix(in srgb, #1890ff, white 15%);"));
    assert!(css.contains("--ant-primary-color-active: color-mix(in srgb, #1890ff, black 15%);"));
    assert!(
        css.contains("--ant-primary-color-outline: color-mix(in srgb, #1890ff, transparent 80%);")
    );
}

#[test]
fn palette_steps_lighten_then_darken() {
    let css = CSSVariablesGenerator::new(ThemeToken::default()).generate();
    assert!(css.contains("--ant-primary-1: color-mix(in srgb, #1890ff, white 90%);"));
    assert!(css.contains("--ant-primary-2: color-mix(in srgb, #1890ff, white 80%);"));
    assert!(css.contains("--ant-primary-3: color-mix(in srgb, #1890ff, white 70%);"));
    assert!(css.contains("--ant-primary-4: color-mix(in srgb, #1890ff, white 60%);"));
    assert!(css.contains("--ant-primary-5: color-mix(in srgb, #1890ff, white 40%);"));
    assert!(css.contains("--ant-primary-6: #1890ff;"));
    assert!(css.contains("--ant-primary-7: color-mix(in srgb, #1890ff, black 20%);"));
    assert!(css.contains("--ant-primary-8: color-mix(in srgb, #1890ff, black 40%);"));
    assert!(css.contains("--ant-primary-9: color-mix(in srgb, #1890ff, black 60%);"));
    assert!(css.contains("--ant-primary-10: color-mix(in srgb, #1890ff, black 80%);"));
}

#[test]
fn generation_is_deterministic() {
    let first = CSSVariablesGenerator::new(ThemeToken::default()).generate();
    let second = CSSVariablesGenerator::new(ThemeToken::default()).generate();
    assert_eq!(first, second);
}

#[test]
fn selector_and_prefix_are_configurable() {
    let css = CSSVariablesGenerator::new(ThemeToken::default())
        .with_selector(".scope".to_string())
        .with_prefix("x".to_string())
        .generate();
    assert!(css.starts_with(".scope {\n"));
    assert!(css.contains("--x-primary-color: #1890ff;"));
    assert!(!css.contains("--ant-primary-color:"));
    // the fixed override blocks follow the prefix too
    assert!(css.contains("--x-body-background: #141414;"));
    assert!(css.contains("--x-font-size-lg: 14px;"));
}

#[test]
fn component_blocks_follow_entry_order() {
    let mut button = ComponentToken::new();
    button.insert("color-bg".to_string(), "#ffffff".to_string());
    button.insert("height".to_string(), "32px".to_string());
    let mut input = ComponentToken::new();
    input.insert("padding".to_string(), "4px".to_string());
    let mut components = ComponentTokenMap::new();
    components.insert("button".to_string(), button);
    components.insert("input".to_string(), input);
    let css = CSSVariablesGenerator::new(ThemeToken::default())
        .with_components(components)
        .generate();
    assert!(css.contains("--ant-button-color-bg: #ffffff;"));
    assert!(css.contains("--ant-button-height: 32px;"));
    assert!(css.contains("--ant-input-padding: 4px;"));
    assert_eq!(css.matches(":root {").count(), 3);
    let button_at = css.find("--ant-button-color-bg").unwrap();
    let input_at = css.find("--ant-input-padding").unwrap();
    assert!(button_at < input_at);
}

#[test]
fn dark_override_block_is_fixed() {
    let mut token = ThemeToken::default();
    token.apply_algorithm(&ThemeAlgorithm::Dark);
    let css = CSSVariablesGenerator::new(token).generate();
    assert!(css.contains("--ant-body-background: #141414;"));
    assert!(css.contains("--ant-component-background: #1f1f1f;"));
    assert!(css.contains("--ant-text-color-secondary: rgba(255, 255, 255, 0.45);"));
    assert!(css.contains("--ant-border-color-base: #434343;"));
    assert!(css.contains("--ant-border-color-split: #303030;"));
    assert!(css.contains("--ant-background-color-light: rgba(255, 255, 255, 0.04);"));
    assert!(css.contains("--ant-background-color-base: rgba(255, 255, 255, 0.08);"));
}

#[test]
fn compact_override_block_is_fixed() {
    let css = CSSVariablesGenerator::new(ThemeToken::default()).generate();
    assert!(css.contains("--ant-font-size-base: 12px;"));
    assert!(css.contains("--ant-font-size-lg: 14px;"));
    assert!(css.contains("--ant-font-size-sm: 12px;"));
    assert!(css.contains("--ant-padding-lg: 16px;"));
    assert!(css.contains("--ant-padding-md: 12px;"));
    assert!(css.contains("--ant-padding-sm: 8px;"));
    assert!(css.contains("--ant-padding-xs: 4px;"));
    assert!(css.contains("--ant-border-radius-base: 2px;"));
}
