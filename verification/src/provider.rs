//! Provider mounting: resolving props into an effective configuration.
//!
//! A configuration provider takes an optional base configuration, an
//! optional theme, and optional size/direction/disabled props, and
//! resolves them into the effective [`Config`] its subtree sees, together
//! with the CSS text to inject when CSS variables are enabled. The
//! resolution is pure; handing the CSS to the document is left to the
//! caller at the DOM boundary.

use crate::config::{ComponentSize, Config, ConfigView, Direction, Theme, ThemeView};
use crate::generator::{decl, generated_css, CSSVariablesGenerator, CSSVariablesGeneratorView};
use crate::theme::{resolved_token_view, ThemeConfig, ThemeConfigView, ThemeTokenView};
use vstd::prelude::*;
use vstd::string::StringExecFns;

verus! {

/// The decimal text of a number.
pub open spec fn dec_str(n: nat) -> Seq<char>
    decreases n,
{
    if n < 10 {
        digit_text(n)
    } else {
        dec_str(n / 10) + digit_text(n % 10)
    }
}

/// The text of one decimal digit.
pub open spec fn digit_text(d: nat) -> Seq<char> {
    if d == 0 {
        "0"@
    } else if d == 1 {
        "1"@
    } else if d == 2 {
        "2"@
    } else if d == 3 {
        "3"@
    } else if d == 4 {
        "4"@
    } else if d == 5 {
        "5"@
    } else if d == 6 {
        "6"@
    } else if d == 7 {
        "7"@
    } else if d == 8 {
        "8"@
    } else {
        "9"@
    }
}

/// Appends one decimal digit.
fn push_digit(out: &mut String, d: u32)
    requires
        d < 10,
    ensures
        final(out)@ == old(out)@ + digit_text(d as nat),
{
    match d {
        0 => out.append("0"),
        1 => out.append("1"),
        2 => out.append("2"),
        3 => out.append("3"),
        4 => out.append("4"),
        5 => out.append("5"),
        6 => out.append("6"),
        7 => out.append("7"),
        8 => out.append("8"),
        _ => out.append("9"),
    }
}

/// Appends the decimal text of a number.
fn push_u32(out: &mut String, n: u32)
    ensures
        final(out)@ == old(out)@ + dec_str(n as nat),
    decreases n,
{
    if n >= 10 {
        push_u32(out, n / 10);
        push_digit(out, n % 10);
        assert(out@ =~= old(out)@ + dec_str(n as nat));
    } else {
        push_digit(out, n);
    }
}

/// Appends `  --ant-{name}: {value};` and a newline.
fn push_ant_decl(out: &mut String, name: &str, value: &str)
    ensures
        final(out)@ == old(out)@ + decl("ant"@, name@, value@),
{
    out.append("  --");
    out.append("ant");
    out.append("-");
    out.append(name);
    out.append(": ");
    out.append(value);
    out.append(";\n");
    assert(out@ =~= old(out)@ + decl("ant"@, name@, value@));
}

/// The decimal text of a number of milliseconds, with the `ms` unit.
pub open spec fn ms_text(n: u32) -> Seq<char> {
    dec_str(n as nat) + "ms"@
}

/// The text of a number of milliseconds, with the `ms` unit.
fn ms_string(n: u32) -> (r: String)
    ensures
        r@ == ms_text(n),
{
    let mut out = String::new();
    push_u32(&mut out, n);
    out.append("ms");
    out
}

/// The `:root` rule a provider emits for its effective configuration:
/// the theme summary colors and the motion settings, under the fixed
/// `ant` prefix.
pub open spec fn config_css_vars(c: ConfigView) -> Seq<char> {
    ":root {\n"@ + decl("ant"@, "primary-color"@, c.theme.primary_color) + decl(
        "ant"@,
        "info-color"@,
        c.theme.info_color,
    ) + decl("ant"@, "success-color"@, c.theme.success_color) + decl(
        "ant"@,
        "warning-color"@,
        c.theme.warning_color,
    ) + decl("ant"@, "error-color"@, c.theme.error_color) + decl(
        "ant"@,
        "motion-duration-mid"@,
        ms_text(c.component_token.motion_duration_mid),
    ) + decl("ant"@, "motion-duration-fast"@, ms_text(c.component_token.motion_duration_fast))
        + decl("ant"@, "motion-ease-in-out"@, c.component_token.motion_ease_in_out) + decl(
        "ant"@,
        "motion-ease-out"@,
        c.component_token.motion_ease_out,
    ) + decl("ant"@, "motion-base"@, ms_text(c.component_token.motion_base)) + "}\n"@
}

/// The `:root` rule for a configuration's summary colors and motion
/// settings.
pub fn generate_config_css(config: &Config) -> (r: String)
    ensures
        r@ == config_css_vars(config@),
{
    let mut css = String::new();
    css.append(":root {\n");
    push_ant_decl(&mut css, "primary-color", config.theme.primary_color.as_str());
    push_ant_decl(&mut css, "info-color", config.theme.info_color.as_str());
    push_ant_decl(&mut css, "success-color", config.theme.success_color.as_str());
    push_ant_decl(&mut css, "warning-color", config.theme.warning_color.as_str());
    push_ant_decl(&mut css, "error-color", config.theme.error_color.as_str());
    let mid = ms_string(config.component_token.motion_duration_mid);
    push_ant_decl(&mut css, "motion-duration-mid", mid.as_str());
    let fast = ms_string(config.component_token.motion_duration_fast);
    push_ant_decl(&mut css, "motion-duration-fast", fast.as_str());
    push_ant_decl(&mut css, "motion-ease-in-out", config.component_token.motion_ease_in_out.as_str());
    push_ant_decl(&mut css, "motion-ease-out", config.component_token.motion_ease_out.as_str());
    let base = ms_string(config.component_token.motion_base);
    push_ant_decl(&mut css, "motion-base", base.as_str());
    css.append("}\n");
    assert(css@ =~= config_css_vars(config@));
    css
}

/// The theme summary colors read off a token set: the primary color also
/// serves as the info color.
pub open spec fn theme_from_token(t: ThemeTokenView) -> ThemeView {
    ThemeView {
        primary_color: t.primary_color,
        info_color: t.primary_color,
        success_color: t.success_color,
        warning_color: t.warning_color,
        error_color: t.error_color,
    }
}

/// The effective configuration a provider resolves from its props: the
/// base configuration (or the defaults), with the theme's resolved colors
/// and then the explicit size, direction and disabled props applied.
pub open spec fn resolved_provider_config(
    config: Option<ConfigView>,
    theme: Option<ThemeConfigView>,
    size: Option<ComponentSize>,
    direction: Option<Direction>,
    disabled: Option<bool>,
) -> ConfigView {
    let base = match config {
        Some(c) => c,
        None => crate::config::default_config(),
    };
    let themed = match theme {
        Some(tc) => ConfigView { theme: theme_from_token(resolved_token_view(tc)), ..base },
        None => base,
    };
    let sized = match size {
        Some(s) => ConfigView { component_size: Some(s), ..themed },
        None => themed,
    };
    let directed = match direction {
        Some(d) => ConfigView { direction: d, ..sized },
        None => sized,
    };
    match disabled {
        Some(b) => ConfigView { component_disabled: b, ..directed },
        None => directed,
    }
}

/// The CSS text a provider injects for its theme: the generated variable
/// blocks for the resolved token and the theme's component overrides,
/// under the `:root` selector and `ant` prefix — present exactly when a
/// theme is supplied and the base configuration enables CSS variables.
pub open spec fn provider_theme_css(
    config: Option<ConfigView>,
    theme: Option<ThemeConfigView>,
) -> Option<Seq<char>> {
    let base = match config {
        Some(c) => c,
        None => crate::config::default_config(),
    };
    match theme {
        Some(tc) => if base.use_css_vars {
            Some(
                generated_css(
                    CSSVariablesGeneratorView {
                        token: resolved_token_view(tc),
                        components: tc.components,
                        selector: ":root"@,
                        prefix: "ant"@,
                    },
                ),
            )
        } else {
            None
        },
        None => None,
    }
}

/// Resolve provider props into the effective configuration and the CSS
/// text to inject, if any.
pub fn resolve_provider_config(
    config: Option<Config>,
    theme: Option<&ThemeConfig>,
    size: Option<ComponentSize>,
    direction: Option<Direction>,
    disabled: Option<bool>,
) -> (r: (Config, Option<String>))
    ensures
        r.0@ == resolved_provider_config(
            match config {
                Some(c) => Some(c@),
                None => None,
            },
            match theme {
                Some(t) => Some(t@),
                None => None,
            },
            size,
            direction,
            disabled,
        ),
        match r.1 {
            Some(css) => provider_theme_css(
                match config {
                    Some(c) => Some(c@),
                    None => None,
                },
                match theme {
                    Some(t) => Some(t@),
                    None => None,
                },
            ) == Some(css@),
            None => provider_theme_css(
                match config {
                    Some(c) => Some(c@),
                    None => None,
                },
                match theme {
                    Some(t) => Some(t@),
                    None => None,
                },
            ) is None,
        },
{
    let mut base_config = match config {
        Some(c) => c,
        None => Config::default(),
    };
    let mut css: Option<String> = None;
    if let Some(theme_config) = theme {
        let token = theme_config.resolved_token();
        if base_config.use_css_vars {
            let generator = CSSVariablesGenerator::new(token.clone()).with_components(
                theme_config.components.clone(),
            );
            css = Some(generator.generate());
        }
        base_config.theme = Theme {
            primary_color: token.primary_color.clone(),
            info_color: token.primary_color.clone(),
            success_color: token.success_color,
            warning_color: token.warning_color,
            error_color: token.error_color,
        };
    }
    if let Some(s) = size {
        base_config.component_size = Some(s);
    }
    if let Some(d) = direction {
        base_config.direction = d;
    }
    if let Some(b) = disabled {
        base_config.component_disabled = b;
    }
    (base_config, css)
}

/// The theme summary colors a provider publishes to its subtree: read off
/// the supplied theme's unresolved token, or the defaults when no theme
/// is supplied.
pub fn provider_theme_context(theme: Option<&ThemeConfig>) -> (r: Theme)
    ensures
        r@ == match theme {
            Some(tc) => theme_from_token(tc@.token),
            None => crate::config::default_theme(),
        },
{
    match theme {
        Some(tc) => Theme {
            primary_color: tc.token.primary_color.clone(),
            info_color: tc.token.primary_color.clone(),
            success_color: tc.token.success_color.clone(),
            warning_color: tc.token.warning_color.clone(),
            error_color: tc.token.error_color.clone(),
        },
        None => Theme::default(),
    }
}

/// The class list of the provider element: the base class, with the
/// disabled modifier when components are disabled and a size modifier for
/// an explicit small or large component size.
pub open spec fn provider_class_view(c: ConfigView) -> Seq<char> {
    "ant-config-provider"@ + (if c.component_disabled {
        " ant-config-provider-disabled"@
    } else {
        Seq::<char>::empty()
    }) + (match c.component_size {
        Some(ComponentSize::Small) => " ant-config-provider-sm"@,
        Some(ComponentSize::Large) => " ant-config-provider-lg"@,
        _ => Seq::<char>::empty(),
    })
}

/// The class list of the provider element.
pub fn provider_class_names(config: &Config) -> (r: String)
    ensures
        r@ == provider_class_view(config@),
{
    let mut out = String::new();
    out.append("ant-config-provider");
    if config.component_disabled {
        out.append(" ant-config-provider-disabled");
    }
    match config.component_size {
        Some(ComponentSize::Small) => out.append(" ant-config-provider-sm"),
        Some(ComponentSize::Large) => out.append(" ant-config-provider-lg"),
        _ => {},
    }
    assert(out@ =~= provider_class_view(config@));
    out
}

} // verus!
