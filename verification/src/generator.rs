//! CSS variable generation.
//!
//! A [`CSSVariablesGenerator`] renders a theme token set and per-component
//! overrides into a CSS text block under a selector and variable prefix.
//! The output is a deterministic function of the generator's fields: the
//! global variable rule, one rule per component entry, and the fixed dark
//! and compact override blocks, always in this order.

use crate::component_token::ComponentTokenMap;
use crate::theme::{ThemeToken, ThemeTokenView};
use vstd::prelude::*;
use vstd::string::StringExecFns;

verus! {

/// One CSS custom-property declaration line:
/// `  --{prefix}-{name}: {value};`.
pub open spec fn decl(prefix: Seq<char>, name: Seq<char>, value: Seq<char>) -> Seq<char> {
    "  --"@ + prefix + "-"@ + name + ": "@ + value + ";\n"@
}

/// One CSS custom-property declaration line for a component:
/// `  --{prefix}-{component}-{key}: {value};`.
pub open spec fn component_decl(
    prefix: Seq<char>,
    component: Seq<char>,
    key: Seq<char>,
    value: Seq<char>,
) -> Seq<char> {
    "  --"@ + prefix + "-"@ + component + "-"@ + key + ": "@ + value + ";\n"@
}

/// A `color-mix` expression blending `color` toward `target` by
/// `percent` percent.
pub open spec fn mix_toward(color: Seq<char>, target: Seq<char>, percent: Seq<char>) -> Seq<char> {
    "color-mix(in srgb, "@ + color + ", "@ + target + " "@ + percent + "%)"@
}

/// The hover variant of a color: blended 15% toward white.
pub open spec fn hover_color(color: Seq<char>) -> Seq<char> {
    mix_toward(color, "white"@, "15"@)
}

/// The active variant of a color: blended 15% toward black.
pub open spec fn active_color(color: Seq<char>) -> Seq<char> {
    mix_toward(color, "black"@, "15"@)
}

/// The outline variant of a color: blended 80% toward transparent.
pub open spec fn outline_color(color: Seq<char>) -> Seq<char> {
    mix_toward(color, "transparent"@, "80"@)
}

/// The blend percentage of a palette step: how far the primary color is
/// blended toward white (indices 1 to 5) or black (indices 7 to 10).
pub open spec fn palette_blend_percent(index: int) -> int {
    if index == 1 {
        90
    } else if index == 2 {
        80
    } else if index == 3 {
        70
    } else if index == 4 {
        60
    } else if index == 5 {
        40
    } else if index == 7 {
        20
    } else if index == 8 {
        40
    } else if index == 9 {
        60
    } else if index == 10 {
        80
    } else {
        0
    }
}

/// The decimal text of the blend percentages in use.
pub open spec fn percent_text(percent: int) -> Seq<char> {
    if percent == 90 {
        "90"@
    } else if percent == 80 {
        "80"@
    } else if percent == 70 {
        "70"@
    } else if percent == 60 {
        "60"@
    } else if percent == 40 {
        "40"@
    } else if percent == 20 {
        "20"@
    } else {
        ""@
    }
}

/// The palette step of a color: step 6 is the color itself, steps 1 to 5
/// blend toward white, steps 7 to 10 blend toward black, and any other
/// index is left as the color itself.
pub open spec fn palette_color(color: Seq<char>, index: int) -> Seq<char> {
    if index == 6 {
        color
    } else if 1 <= index < 6 {
        mix_toward(color, "white"@, percent_text(palette_blend_percent(index)))
    } else if 6 < index <= 10 {
        mix_toward(color, "black"@, percent_text(palette_blend_percent(index)))
    } else {
        color
    }
}

/// Law: palette step 6 is the primary color unchanged; steps 1 to 5 blend
/// toward white and steps 7 to 10 blend toward black, with the blend
/// percentage strictly increasing as the index moves away from 6.
pub proof fn lemma_palette_steps(color: Seq<char>)
    ensures
        palette_color(color, 6) == color,
        forall|i: int|
            1 <= i <= 5 ==> palette_color(color, i) == mix_toward(
                color,
                "white"@,
                percent_text(palette_blend_percent(i)),
            ),
        forall|i: int|
            7 <= i <= 10 ==> palette_color(color, i) == mix_toward(
                color,
                "black"@,
                percent_text(palette_blend_percent(i)),
            ),
        forall|i: int, j: int|
            1 <= i < j <= 5 ==> palette_blend_percent(i) > palette_blend_percent(j),
        forall|i: int, j: int|
            7 <= i < j <= 10 ==> palette_blend_percent(i) < palette_blend_percent(j),
{
}

/// The global variable rule: one declaration per token field, the derived
/// hover/active/outline variants of the primary color, and the ten-step
/// primary palette.
pub open spec fn global_vars(t: ThemeTokenView, selector: Seq<char>, prefix: Seq<char>) -> Seq<
    char,
> {
    selector + " {\n"@ + decl(prefix, "primary-color"@, t.primary_color) + decl(
        prefix,
        "success-color"@,
        t.success_color,
    ) + decl(prefix, "warning-color"@, t.warning_color) + decl(prefix, "error-color"@, t.error_color)
        + decl(prefix, "font-size-base"@, t.font_size_base) + decl(
        prefix,
        "border-radius-base"@,
        t.border_radius_base,
    ) + decl(prefix, "line-height"@, t.line_height) + decl(prefix, "background"@, t.background)
        + decl(prefix, "text-color"@, t.text_color) + decl(prefix, "border-color"@, t.border_color)
        + decl(prefix, "box-shadow"@, t.box_shadow) + decl(
        prefix,
        "disabled-opacity"@,
        t.disabled_opacity,
    ) + decl(prefix, "disabled-bg"@, t.disabled_bg) + decl(prefix, "disabled-color"@, t.disabled_color)
        + decl(prefix, "primary-color-hover"@, hover_color(t.primary_color)) + decl(
        prefix,
        "primary-color-active"@,
        active_color(t.primary_color),
    ) + decl(prefix, "primary-color-outline"@, outline_color(t.primary_color)) + decl(
        prefix,
        "primary-1"@,
        palette_color(t.primary_color, 1),
    ) + decl(prefix, "primary-2"@, palette_color(t.primary_color, 2)) + decl(
        prefix,
        "primary-3"@,
        palette_color(t.primary_color, 3),
    ) + decl(prefix, "primary-4"@, palette_color(t.primary_color, 4)) + decl(
        prefix,
        "primary-5"@,
        palette_color(t.primary_color, 5),
    ) + decl(prefix, "primary-6"@, palette_color(t.primary_color, 6)) + decl(
        prefix,
        "primary-7"@,
        palette_color(t.primary_color, 7),
    ) + decl(prefix, "primary-8"@, palette_color(t.primary_color, 8)) + decl(
        prefix,
        "primary-9"@,
        palette_color(t.primary_color, 9),
    ) + decl(prefix, "primary-10"@, palette_color(t.primary_color, 10)) + "}\n"@
}

/// The declaration lines of one component rule, in entry order.
pub open spec fn component_decls(
    prefix: Seq<char>,
    component: Seq<char>,
    entries: Seq<(Seq<char>, Seq<char>)>,
) -> Seq<char>
    decreases entries.len(),
{
    if entries.len() == 0 {
        Seq::empty()
    } else {
        component_decls(prefix, component, entries.drop_last()) + component_decl(
            prefix,
            component,
            entries.last().0,
            entries.last().1,
        )
    }
}

/// One component rule: the selector, one declaration per entry, and the
/// closing brace.
pub open spec fn component_block(
    selector: Seq<char>,
    prefix: Seq<char>,
    component: Seq<char>,
    entries: Seq<(Seq<char>, Seq<char>)>,
) -> Seq<char> {
    selector + " {\n"@ + component_decls(prefix, component, entries) + "}\n"@
}

/// All component rules, in component entry order.
pub open spec fn component_blocks(
    selector: Seq<char>,
    prefix: Seq<char>,
    components: Seq<(Seq<char>, Seq<(Seq<char>, Seq<char>)>)>,
) -> Seq<char>
    decreases components.len(),
{
    if components.len() == 0 {
        Seq::empty()
    } else {
        component_blocks(selector, prefix, components.drop_last()) + component_block(
            selector,
            prefix,
            components.last().0,
            components.last().1,
        )
    }
}

/// The fixed dark-theme override block, gated by a `data-theme='dark'`
/// attribute selector; its values do not depend on the token.
pub open spec fn dark_theme_vars(prefix: Seq<char>) -> Seq<char> {
    "[data-theme='dark'] {\n"@ + decl(prefix, "body-background"@, "#141414"@) + decl(
        prefix,
        "component-background"@,
        "#1f1f1f"@,
    ) + decl(prefix, "text-color"@, "rgba(255, 255, 255, 0.85)"@) + decl(
        prefix,
        "text-color-secondary"@,
        "rgba(255, 255, 255, 0.45)"@,
    ) + decl(prefix, "border-color-base"@, "#434343"@) + decl(
        prefix,
        "border-color-split"@,
        "#303030"@,
    ) + decl(prefix, "background-color-light"@, "rgba(255, 255, 255, 0.04)"@) + decl(
        prefix,
        "background-color-base"@,
        "rgba(255, 255, 255, 0.08)"@,
    ) + "}\n"@
}

/// The fixed compact-theme override block, gated by a
/// `data-theme='compact'` attribute selector.
pub open spec fn compact_theme_vars(prefix: Seq<char>) -> Seq<char> {
    "[data-theme='compact'] {\n"@ + decl(prefix, "font-size-base"@, "12px"@) + decl(
        prefix,
        "font-size-lg"@,
        "14px"@,
    ) + decl(prefix, "font-size-sm"@, "12px"@) + decl(prefix, "padding-lg"@, "16px"@) + decl(
        prefix,
        "padding-md"@,
        "12px"@,
    ) + decl(prefix, "padding-sm"@, "8px"@) + decl(prefix, "padding-xs"@, "4px"@) + decl(
        prefix,
        "border-radius-base"@,
        "2px"@,
    ) + "}\n"@
}

/// CSS variables generator.
#[derive(Debug)]
pub struct CSSVariablesGenerator {
    /// Theme token
    pub token: ThemeToken,
    /// Component tokens
    pub components: ComponentTokenMap,
    /// CSS selector
    pub selector: String,
    /// Prefix for variables
    pub prefix: String,
}

/// Mathematical model of a [`CSSVariablesGenerator`].
pub ghost struct CSSVariablesGeneratorView {
    /// Theme token
    pub token: ThemeTokenView,
    /// Component tokens
    pub components: Seq<(Seq<char>, Seq<(Seq<char>, Seq<char>)>)>,
    /// CSS selector
    pub selector: Seq<char>,
    /// Prefix for variables
    pub prefix: Seq<char>,
}

impl View for CSSVariablesGenerator {
    type V = CSSVariablesGeneratorView;

    open spec fn view(&self) -> CSSVariablesGeneratorView {
        CSSVariablesGeneratorView {
            token: self.token@,
            components: self.components@,
            selector: self.selector@,
            prefix: self.prefix@,
        }
    }
}

/// The whole generated CSS text: the global rule, the component rules,
/// and the fixed dark and compact override blocks, in this order.
pub open spec fn generated_css(g: CSSVariablesGeneratorView) -> Seq<char> {
    global_vars(g.token, g.selector, g.prefix) + component_blocks(g.selector, g.prefix, g.components)
        + dark_theme_vars(g.prefix) + compact_theme_vars(g.prefix)
}

/// Law: CSS generation is deterministic. Two generators with equal
/// tokens, component entries, selectors and prefixes produce
/// byte-identical text.
pub proof fn lemma_generate_deterministic(g1: CSSVariablesGeneratorView, g2: CSSVariablesGeneratorView)
    requires
        g1.token == g2.token,
        g1.components == g2.components,
        g1.selector == g2.selector,
        g1.prefix == g2.prefix,
    ensures
        generated_css(g1) == generated_css(g2),
{
}

/// Appends `  --{prefix}-{name}: {value};` and a newline.
fn push_decl(out: &mut String, prefix: &str, name: &str, value: &str)
    ensures
        final(out)@ == old(out)@ + decl(prefix@, name@, value@),
{
    out.append("  --");
    out.append(prefix);
    out.append("-");
    out.append(name);
    out.append(": ");
    out.append(value);
    out.append(";\n");
    assert(out@ =~= old(out)@ + decl(prefix@, name@, value@));
}

/// Appends `  --{prefix}-{component}-{key}: {value};` and a newline.
fn push_component_decl(out: &mut String, prefix: &str, component: &str, key: &str, value: &str)
    ensures
        final(out)@ == old(out)@ + component_decl(prefix@, component@, key@, value@),
{
    out.append("  --");
    out.append(prefix);
    out.append("-");
    out.append(component);
    out.append("-");
    out.append(key);
    out.append(": ");
    out.append(value);
    out.append(";\n");
    assert(out@ =~= old(out)@ + component_decl(prefix@, component@, key@, value@));
}

/// Appends `color-mix(in srgb, {color}, {target} {percent}%)`.
fn push_mix(out: &mut String, color: &str, target: &str, percent: &str)
    ensures
        final(out)@ == old(out)@ + mix_toward(color@, target@, percent@),
{
    out.append("color-mix(in srgb, ");
    out.append(color);
    out.append(", ");
    out.append(target);
    out.append(" ");
    out.append(percent);
    out.append("%)");
    assert(out@ =~= old(out)@ + mix_toward(color@, target@, percent@));
}

impl CSSVariablesGenerator {
    /// Create a new generator for the given token, with no component
    /// overrides, the `:root` selector and the `ant` prefix.
    pub fn new(token: ThemeToken) -> (r: Self)
        ensures
            r@.token == token@,
            r@.components == Seq::<(Seq<char>, Seq<(Seq<char>, Seq<char>)>)>::empty(),
            r@.selector == ":root"@,
            r@.prefix == "ant"@,
    {
        CSSVariablesGenerator {
            token,
            components: ComponentTokenMap::new(),
            selector: ":root".to_string(),
            prefix: "ant".to_string(),
        }
    }

    /// Set the CSS selector of the global rule.
    pub fn with_selector(self, selector: String) -> (r: Self)
        ensures
            r@ == (CSSVariablesGeneratorView { selector: selector@, ..self@ }),
    {
        CSSVariablesGenerator { selector, ..self }
    }

    /// Set the variable prefix.
    pub fn with_prefix(self, prefix: String) -> (r: Self)
        ensures
            r@ == (CSSVariablesGeneratorView { prefix: prefix@, ..self@ }),
    {
        CSSVariablesGenerator { prefix, ..self }
    }

    /// Set the component token overrides.
    pub fn with_components(self, components: ComponentTokenMap) -> (r: Self)
        ensures
            r@ == (CSSVariablesGeneratorView { components: components@, ..self@ }),
    {
        CSSVariablesGenerator { components, ..self }
    }

    /// Generate the whole CSS text.
    pub fn generate(&self) -> (r: String)
        ensures
            r@ == generated_css(self@),
    {
        let mut css = String::new();
        let global = self.generate_global_vars();
        css.append(global.as_str());
        let components = self.generate_component_vars();
        css.append(components.as_str());
        let dark = self.generate_dark_theme_vars();
        css.append(dark.as_str());
        let compact = self.generate_compact_theme_vars();
        css.append(compact.as_str());
        assert(css@ =~= generated_css(self@));
        css
    }

    /// The hover variant of a color.
    fn generate_hover_color(&self, color: &str) -> (r: String)
        ensures
            r@ == hover_color(color@),
    {
        let mut out = String::new();
        push_mix(&mut out, color, "white", "15");
        assert(out@ =~= hover_color(color@));
        out
    }

    /// The active variant of a color.
    fn generate_active_color(&self, color: &str) -> (r: String)
        ensures
            r@ == active_color(color@),
    {
        let mut out = String::new();
        push_mix(&mut out, color, "black", "15");
        assert(out@ =~= active_color(color@));
        out
    }

    /// The outline variant of a color.
    fn generate_outline_color(&self, color: &str) -> (r: String)
        ensures
            r@ == outline_color(color@),
    {
        let mut out = String::new();
        push_mix(&mut out, color, "transparent", "80");
        assert(out@ =~= outline_color(color@));
        out
    }

    /// The palette step of a color.
    fn generate_palette_color(&self, color: &str, index: u8) -> (r: String)
        ensures
            r@ == palette_color(color@, index as int),
    {
        let mut out = String::new();
        match index {
            1 => push_mix(&mut out, color, "white", "90"),
            2 => push_mix(&mut out, color, "white", "80"),
            3 => push_mix(&mut out, color, "white", "70"),
            4 => push_mix(&mut out, color, "white", "60"),
            5 => push_mix(&mut out, color, "white", "40"),
            6 => out.append(color),
            7 => push_mix(&mut out, color, "black", "20"),
            8 => push_mix(&mut out, color, "black", "40"),
            9 => push_mix(&mut out, color, "black", "60"),
            10 => push_mix(&mut out, color, "black", "80"),
            _ => out.append(color),
        }
        assert(out@ =~= palette_color(color@, index as int));
        out
    }

    /// The global variable rule.
    fn generate_global_vars(&self) -> (r: String)
        ensures
            r@ == global_vars(self.token@, self.selector@, self.prefix@),
    {
        let mut css = String::new();
        css.append(self.selector.as_str());
        css.append(" {\n");
        let prefix = self.prefix.as_str();
        push_decl(&mut css, prefix, "primary-color", self.token.primary_color.as_str());
        push_decl(&mut css, prefix, "success-color", self.token.success_color.as_str());
        push_decl(&mut css, prefix, "warning-color", self.token.warning_color.as_str());
        push_decl(&mut css, prefix, "error-color", self.token.error_color.as_str());
        push_decl(&mut css, prefix, "font-size-base", self.token.font_size_base.as_str());
        push_decl(&mut css, prefix, "border-radius-base", self.token.border_radius_base.as_str());
        push_decl(&mut css, prefix, "line-height", self.token.line_height.as_str());
        push_decl(&mut css, prefix, "background", self.token.background.as_str());
        push_decl(&mut css, prefix, "text-color", self.token.text_color.as_str());
        push_decl(&mut css, prefix, "border-color", self.token.border_color.as_str());
        push_decl(&mut css, prefix, "box-shadow", self.token.box_shadow.as_str());
        push_decl(&mut css, prefix, "disabled-opacity", self.token.disabled_opacity.as_str());
        push_decl(&mut css, prefix, "disabled-bg", self.token.disabled_bg.as_str());
        push_decl(&mut css, prefix, "disabled-color", self.token.disabled_color.as_str());
        let hover = self.generate_hover_color(self.token.primary_color.as_str());
        push_decl(&mut css, prefix, "primary-color-hover", hover.as_str());
        let active = self.generate_active_color(self.token.primary_color.as_str());
        push_decl(&mut css, prefix, "primary-color-active", active.as_str());
        let outline = self.generate_outline_color(self.token.primary_color.as_str());
        push_decl(&mut css, prefix, "primary-color-outline", outline.as_str());
        let p1 = self.generate_palette_color(self.token.primary_color.as_str(), 1);
        push_decl(&mut css, prefix, "primary-1", p1.as_str());
        let p2 = self.generate_palette_color(self.token.primary_color.as_str(), 2);
        push_decl(&mut css, prefix, "primary-2", p2.as_str());
        let p3 = self.generate_palette_color(self.token.primary_color.as_str(), 3);
        push_decl(&mut css, prefix, "primary-3", p3.as_str());
        let p4 = self.generate_palette_color(self.token.primary_color.as_str(), 4);
        push_decl(&mut css, prefix, "primary-4", p4.as_str());
        let p5 = self.generate_palette_color(self.token.primary_color.as_str(), 5);
        push_decl(&mut css, prefix, "primary-5", p5.as_str());
        let p6 = self.generate_palette_color(self.token.primary_color.as_str(), 6);
        push_decl(&mut css, prefix, "primary-6", p6.as_str());
        let p7 = self.generate_palette_color(self.token.primary_color.as_str(), 7);
        push_decl(&mut css, prefix, "primary-7", p7.as_str());
        let p8 = self.generate_palette_color(self.token.primary_color.as_str(), 8);
        push_decl(&mut css, prefix, "primary-8", p8.as_str());
        let p9 = self.generate_palette_color(self.token.primary_color.as_str(), 9);
        push_decl(&mut css, prefix, "primary-9", p9.as_str());
        let p10 = self.generate_palette_color(self.token.primary_color.as_str(), 10);
        push_decl(&mut css, prefix, "primary-10", p10.as_str());
        css.append("}\n");
        assert(css@ =~= global_vars(self.token@, self.selector@, self.prefix@));
        css
    }

    /// The component rules, one per component entry.
    fn generate_component_vars(&self) -> (r: String)
        ensures
            r@ == component_blocks(self.selector@, self.prefix@, self.components@),
    {
        let mut css = String::new();
        let mut i: usize = 0;
        while i < self.components.components.len()
            invariant
                i <= self.components.components.len(),
                css@ == component_blocks(
                    self.selector@,
                    self.prefix@,
                    self.components@.take(i as int),
                ),
            decreases self.components.components.len() - i,
        {
            assert(self.components@.take(i as int + 1).drop_last() =~~= self.components@.take(
                i as int,
            ));
            assert(self.components@.take(i as int + 1).last() == self.components@[i as int]);
            let ghost entries = self.components@[i as int].1;
            css.append(self.selector.as_str());
            css.append(" {\n");
            let component = &self.components.components[i];
            let mut j: usize = 0;
            while j < component.1.token.len()
                invariant
                    j <= component.1.token.len(),
                    component == self.components.components@[i as int],
                    entries == self.components@[i as int].1,
                    i < self.components.components@.len(),
                    entries == component.1@,
                    css@ == component_blocks(
                        self.selector@,
                        self.prefix@,
                        self.components@.take(i as int),
                    ) + self.selector@ + " {\n"@ + component_decls(
                        self.prefix@,
                        component.0@,
                        entries.take(j as int),
                    ),
                decreases component.1.token.len() - j,
            {
                assert(entries.take(j as int + 1).drop_last() =~~= entries.take(j as int));
                assert(entries.take(j as int + 1).last() == entries[j as int]);
                assert(entries[j as int] == (
                    component.1.token@[j as int].0@,
                    component.1.token@[j as int].1@,
                ));
                push_component_decl(
                    &mut css,
                    self.prefix.as_str(),
                    component.0.as_str(),
                    component.1.token[j].0.as_str(),
                    component.1.token[j].1.as_str(),
                );
                assert(css@ =~= component_blocks(
                    self.selector@,
                    self.prefix@,
                    self.components@.take(i as int),
                ) + self.selector@ + " {\n"@ + component_decls(
                    self.prefix@,
                    component.0@,
                    entries.take(j as int + 1),
                ));
                j += 1;
            }
            assert(entries.take(component.1.token.len() as int) =~~= entries);
            css.append("}\n");
            assert(css@ =~= component_blocks(
                self.selector@,
                self.prefix@,
                self.components@.take(i as int + 1),
            ));
            i += 1;
        }
        assert(self.components@.take(self.components.components.len() as int)
            =~~= self.components@);
        css
    }

    /// The fixed dark-theme override block.
    fn generate_dark_theme_vars(&self) -> (r: String)
        ensures
            r@ == dark_theme_vars(self.prefix@),
    {
        let mut css = String::new();
        css.append("[data-theme='dark'] {\n");
        let prefix = self.prefix.as_str();
        push_decl(&mut css, prefix, "body-background", "#141414");
        push_decl(&mut css, prefix, "component-background", "#1f1f1f");
        push_decl(&mut css, prefix, "text-color", "rgba(255, 255, 255, 0.85)");
        push_decl(&mut css, prefix, "text-color-secondary", "rgba(255, 255, 255, 0.45)");
        push_decl(&mut css, prefix, "border-color-base", "#434343");
        push_decl(&mut css, prefix, "border-color-split", "#303030");
        push_decl(&mut css, prefix, "background-color-light", "rgba(255, 255, 255, 0.04)");
        push_decl(&mut css, prefix, "background-color-base", "rgba(255, 255, 255, 0.08)");
        css.append("}\n");
        assert(css@ =~= dark_theme_vars(self.prefix@));
        css
    }

    /// The fixed compact-theme override block.
    fn generate_compact_theme_vars(&self) -> (r: String)
        ensures
            r@ == compact_theme_vars(self.prefix@),
    {
        let mut css = String::new();
        css.append("[data-theme='compact'] {\n");
        let prefix = self.prefix.as_str();
        push_decl(&mut css, prefix, "font-size-base", "12px");
        push_decl(&mut css, prefix, "font-size-lg", "14px");
        push_decl(&mut css, prefix, "font-size-sm", "12px");
        push_decl(&mut css, prefix, "padding-lg", "16px");
        push_decl(&mut css, prefix, "padding-md", "12px");
        push_decl(&mut css, prefix, "padding-sm", "8px");
        push_decl(&mut css, prefix, "padding-xs", "4px");
        push_decl(&mut css, prefix, "border-radius-base", "2px");
        css.append("}\n");
        assert(css@ =~= compact_theme_vars(self.prefix@));
        css
    }
}

} // verus!
