use ant_leptos::component_token::{ComponentToken, ComponentTokenMap};
use ant_leptos::config::{ComponentSize, Config, Direction};
use ant_leptos::merge::{
    fill_config_defaults, fill_theme_defaults, merge_config, merge_theme_config, ConfigPatch,
    ThemeConfigPatch,
};
use ant_leptos::theme::{ThemeAlgorithm, ThemeConfig, ThemeToken};

fn sample_parent_config() -> Config {
    let mut parent = Config::default();
    parent.prefix_cls = "custom".to_string();
    parent.direction = Direction::Rtl;
    parent.component_disabled = true;
    parent.component_size = Some(ComponentSize::Large);
    parent
}

fn sample_config_patch() -> ConfigPatch {
    let mut local = ConfigPatch::new();
    local.prefix_cls = Some("local".to_string());
    local.use_css_vars = Some(false);
    local
}

#[test]
fn config_merge_without_inherit_ignores_parent() {
    let parent = sample_parent_config();
    let local = sample_config_patch();
    let merged = merge_config(&parent, &local, false);
    assert_eq!(merged, fill_config_defaults(&local));
    // nothing of the parent survives
    assert_eq!(merged.prefix_cls, "local");
    assert_eq!(merged.direction, Direction::Ltr);
    assert!(!merged.component_disabled);
    assert_eq!(merged.component_size, None);
    assert!(!merged.use_css_vars);
}

#[test]
fn config_merge_with_inherit_and_empty_patch_keeps_parent() {
    let parent = sample_parent_config();
    let merged = merge_config(&parent, &ConfigPatch::new(), true);
    assert_eq!(merged, parent);
}

#[test]
fn config_merge_local_fields_win() {
    let parent = sample_parent_config();
    let local = sample_config_patch();
    let merged = merge_config(&parent, &local, true);
    assert_eq!(merged.prefix_cls, "local");
    assert!(!merged.use_css_vars);
    // unsupplied fields come from the parent
    assert_eq!(merged.direction, Direction::Rtl);
    assert!(merged.component_disabled);
    assert_eq!(merged.component_size, Some(ComponentSize::Large));
}

fn sample_parent_theme() -> ThemeConfig {
    let mut parent = ThemeConfig::default();
    parent.algorithm = Some(vec![ThemeAlgorithm::Dark]);
    parent.hash_id = Some("parent-hash".to_string());
    let mut button = ComponentToken::new();
    button.insert("height".to_string(), "32px".to_string());
    parent.components.insert("button".to_string(), button);
    parent
}

#[test]
fn theme_merge_without_inherit_ignores_parent() {
    let parent = sample_parent_theme();
    let mut local = ThemeConfigPatch::new();
    local.primary_color = Some("#123456".to_string());
    let merged = merge_theme_config(&parent, &local, false);
    assert_eq!(merged, fill_theme_defaults(&local));
    assert_eq!(merged.primary_color, "#123456");
    assert_eq!(merged.token, ThemeToken::default());
    assert!(merged.algorithm.is_none());
    assert!(merged.hash_id.is_none());
    assert_eq!(merged.components.len(), 0);
}

#[test]
fn theme_merge_with_inherit_and_empty_patch_keeps_parent() {
    let parent = sample_parent_theme();
    let merged = merge_theme_config(&parent, &ThemeConfigPatch::new(), true);
    assert_eq!(merged, parent);
}

#[test]
fn theme_merge_components_merge_by_key() {
    let parent = sample_parent_theme();
    let mut local = ThemeConfigPatch::new();
    let mut local_button = ComponentToken::new();
    local_button.insert("height".to_string(), "40px".to_string());
    local.components.insert("button".to_string(), local_button.clone());
    let mut local_input = ComponentToken::new();
    local_input.insert("margin".to_string(), "2px".to_string());
    local.components.insert("input".to_string(), local_input.clone());
    let merged = merge_theme_config(&parent, &local, true);
    assert_eq!(merged.components.len(), 2);
    assert_eq!(merged.components.get(&"button".to_string()), Some(&local_button));
    assert_eq!(merged.components.get(&"input".to_string()), Some(&local_input));
    // scalar fields fall back to the parent
    assert_eq!(merged.hash_id, Some("parent-hash".to_string()));
    assert_eq!(merged.algorithm, Some(vec![ThemeAlgorithm::Dark]));
}

#[test]
fn theme_merge_optional_scalars_prefer_local() {
    let parent = sample_parent_theme();
    let mut local = ThemeConfigPatch::new();
    local.hash_id = Some("local-hash".to_string());
    local.inline = Some(true);
    let merged = merge_theme_config(&parent, &local, true);
    assert_eq!(merged.hash_id, Some("local-hash".to_string()));
    assert_eq!(merged.inline, Some(true));
    assert_eq!(merged.css_var_prefix, None);
}
