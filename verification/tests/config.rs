use ant_leptos::config::{
    generate_colors, space_size_px, ComponentSize, Config, Direction, SpaceSize, Theme, ThemeMode,
};
use ant_leptos::theme::ThemeAlgorithm;

#[test]
fn config_defaults() {
    let config = Config::default();
    assert_eq!(config.prefix_cls, "ant");
    assert_eq!(config.direction, Direction::Ltr);
    assert_eq!(config.size, ComponentSize::Middle);
    assert_eq!(config.icon_prefix_cls, "anticon");
    assert!(config.use_css_vars);
    assert!(config.warning_config.show_warnings);
    assert!(config.form.require_mark);
    assert!(config.form.scroll_to_first_error);
    assert_eq!(config.form.validate_messages.required, "${label} is required");
    assert!(!config.input.auto_focus);
    assert_eq!(config.select.empty_text, "No data");
    assert_eq!(config.select.loading_text, "Loading...");
    assert!(config.pagination.show_size_changer);
    assert!(!config.pagination.show_quick_jumper);
    assert_eq!(config.modal.close_text, "Cancel");
    assert_eq!(config.modal.ok_text, "OK");
    assert_eq!(config.space.size, SpaceSize::Small);
    assert_eq!(config.virtual_config.item_height, 24);
    assert!(config.popup_container.is_none());
    assert!(config.auto_insert_space_in_button);
    assert_eq!(config.component_token.motion_duration_mid, 200);
    assert_eq!(config.component_token.motion_duration_fast, 100);
    assert_eq!(config.component_token.motion_base, 100);
    assert!(config.component_size.is_none());
    assert!(!config.component_disabled);
}

#[test]
fn theme_defaults() {
    let theme = Theme::default();
    assert_eq!(theme.primary_color, "#1890ff");
    assert_eq!(theme.info_color, "#1890ff");
    assert_eq!(theme.success_color, "#52c41a");
    assert_eq!(theme.warning_color, "#faad14");
    assert_eq!(theme.error_color, "#ff4d4f");
}

#[test]
fn set_theme_mode_dark_replaces_palette() {
    let mut config = Config::default();
    config.set_theme_mode(ThemeMode::Dark);
    assert_eq!(config.theme.primary_color, "#177ddc");
    assert_eq!(config.theme.success_color, "#49aa19");
    assert_eq!(config.theme.warning_color, "#d89614");
    assert_eq!(config.theme.error_color, "#a61d24");
    assert_eq!(config.theme.info_color, "#1890ff");
    assert_eq!(config.size, ComponentSize::Middle);
}

#[test]
fn set_theme_mode_light_restores_defaults() {
    let mut config = Config::default();
    config.set_theme_mode(ThemeMode::Dark);
    config.set_theme_mode(ThemeMode::Light);
    assert_eq!(config.theme, Theme::default());
}

#[test]
fn set_theme_mode_compact_only_shrinks_the_size() {
    let mut config = Config::default();
    config.set_theme_mode(ThemeMode::Compact);
    assert_eq!(config.size, ComponentSize::Small);
    assert_eq!(config.theme, Theme::default());
}

#[test]
fn generate_colors_without_algorithms() {
    let theme = generate_colors("#123456", None);
    assert_eq!(theme.primary_color, "#123456");
    assert_eq!(theme.info_color, "#123456");
    assert_eq!(theme.success_color, "#52c41a");
    assert_eq!(theme.warning_color, "#faad14");
    assert_eq!(theme.error_color, "#ff4d4f");
}

#[test]
fn generate_colors_with_dark_algorithm() {
    let algorithms = vec![ThemeAlgorithm::Dark];
    let theme = generate_colors("#123456", Some(&algorithms));
    assert_eq!(theme.primary_color, "#177ddc");
    assert_eq!(theme.info_color, "#123456");
    assert_eq!(theme.success_color, "#49aa19");
    assert_eq!(theme.warning_color, "#d89614");
    assert_eq!(theme.error_color, "#a61d24");
}

#[test]
fn generate_colors_compact_keeps_colors() {
    let algorithms = vec![ThemeAlgorithm::Compact, ThemeAlgorithm::Default];
    let theme = generate_colors("#123456", Some(&algorithms));
    assert_eq!(theme.primary_color, "#123456");
    assert_eq!(theme.success_color, "#52c41a");
}

#[test]
fn space_sizes_in_pixels() {
    assert_eq!(space_size_px(&SpaceSize::Small), 8);
    assert_eq!(space_size_px(&SpaceSize::Middle), 16);
    assert_eq!(space_size_px(&SpaceSize::Large), 24);
    assert_eq!(space_size_px(&SpaceSize::Custom(42)), 42);
}
