use ant_leptos::config::{ComponentSize, Config, Direction};
use ant_leptos::provider::{
    generate_config_css, provider_class_names, provider_theme_context, resolve_provider_config,
};
use ant_leptos::theme::{ThemeAlgorithm, ThemeConfig};

fn dark_theme() -> ThemeConfig {
    let mut theme = ThemeConfig::default();
    theme.token.primary_color = "#1890ff".to_string();
    theme.algorithm = Some(vec![ThemeAlgorithm::Dark]);
    theme
}

#[test]
fn mounting_with_dark_algorithm_emits_dark_variables() {
    let theme = dark_theme();
    let (config, css) = resolve_provider_config(None, Some(&theme), None, None, None);
    let css = css.expect("CSS variables are enabled by default");
    // the dark algorithm rewrites the background token
    assert!(css.contains("--ant-background: #141414;"));
    // palette step 6 is the resolved primary color unchanged; the dark
    // algorithm has replaced the configured #1890ff with its own primary
    assert!(css.contains("--ant-primary-6: #177ddc;"));
    assert!(css.contains("--ant-primary-color: #177ddc;"));
    // the resolved colors land in the effective configuration
    assert_eq!(config.theme.primary_color, "#177ddc");
    assert_eq!(config.theme.info_color, "#177ddc");
    assert_eq!(config.theme.success_color, "#49aa19");
}

#[test]
fn palette_step_six_keeps_the_primary_color_without_algorithms() {
    let theme = ThemeConfig::default();
    let (_, css) = resolve_provider_config(None, Some(&theme), None, None, None);
    let css = css.unwrap();
    assert!(css.contains("--ant-primary-6: #1890ff;"));
}

#[test]
fn css_is_omitted_when_variables_are_disabled() {
    let mut base = Config::default();
    base.use_css_vars = false;
    let theme = dark_theme();
    let (config, css) = resolve_provider_config(Some(base), Some(&theme), None, None, None);
    assert!(css.is_none());
    // the theme colors are still resolved into the configuration
    assert_eq!(config.theme.primary_color, "#177ddc");
}

#[test]
fn explicit_props_override_the_base_configuration() {
    let (config, css) = resolve_provider_config(
        None,
        None,
        Some(ComponentSize::Large),
        Some(Direction::Rtl),
        Some(true),
    );
    assert!(css.is_none());
    assert_eq!(config.component_size, Some(ComponentSize::Large));
    assert_eq!(config.direction, Direction::Rtl);
    assert!(config.component_disabled);
    // everything else keeps its default
    assert_eq!(config.prefix_cls, "ant");
    assert_eq!(config.size, ComponentSize::Middle);
}

#[test]
fn theme_context_reads_the_unresolved_token() {
    let theme = dark_theme();
    let context = provider_theme_context(Some(&theme));
    // the published colors come from the configured token, before algorithms
    assert_eq!(context.primary_color, "#1890ff");
    assert_eq!(context.info_color, "#1890ff");
    let fallback = provider_theme_context(None);
    assert_eq!(fallback.primary_color, "#1890ff");
    assert_eq!(fallback.error_color, "#ff4d4f");
}

#[test]
fn config_css_holds_colors_and_motion() {
    let css = generate_config_css(&Config::default());
    assert!(css.starts_with(":root {\n"));
    assert!(css.contains("--ant-primary-color: #1890ff;"));
    assert!(css.contains("--ant-info-color: #1890ff;"));
    assert!(css.contains("--ant-success-color: #52c41a;"));
    assert!(css.contains("--ant-warning-color: #faad14;"));
    assert!(css.contains("--ant-error-color: #ff4d4f;"));
    assert!(css.contains("--ant-motion-duration-mid: 200ms;"));
    assert!(css.contains("--ant-motion-duration-fast: 100ms;"));
    assert!(css.contains("--ant-motion-base: 100ms;"));
    assert!(css.contains("--ant-motion-ease-in-out: cubic-bezier(0.645, 0.045, 0.355, 1);"));
}

#[test]
fn config_css_renders_decimal_durations() {
    let mut config = Config::default();
    config.component_token.motion_duration_mid = 1234;
    config.component_token.motion_duration_fast = 0;
    config.component_token.motion_base = 1_000_000_007;
    let css = generate_config_css(&config);
    assert!(css.contains("--ant-motion-duration-mid: 1234ms;"));
    assert!(css.contains("--ant-motion-duration-fast: 0ms;"));
    assert!(css.contains("--ant-motion-base: 1000000007ms;"));
}

#[test]
fn provider_class_names_follow_the_configuration() {
    let mut config = Config::default();
    assert_eq!(provider_class_names(&config), "ant-config-provider");
    config.component_disabled = true;
    config.component_size = Some(ComponentSize::Small);
    assert_eq!(
        provider_class_names(&config),
        "ant-config-provider ant-config-provider-disabled ant-config-provider-sm"
    );
    config.component_disabled = false;
    config.component_size = Some(ComponentSize::Large);
    assert_eq!(
        provider_class_names(&config),
        "ant-config-provider ant-config-provider-lg"
    );
    config.component_size = Some(ComponentSize::Middle);
    assert_eq!(provider_class_names(&config), "ant-config-provider");
}
