//! Design tokens and theme algorithms.
//!
//! A [`ThemeToken`] is a flat record of named design values.  A
//! [`ThemeAlgorithm`] is a deterministic, pure transform of a token set:
//! `Default` is the identity, while `Dark` and `Compact` overwrite fixed,
//! disjoint field subsets with fixed literal values.

use crate::component_token::ComponentTokenMap;
use vstd::prelude::*;

verus! {

/// The view of an optional string: the character sequence, if present.
pub open spec fn opt_str_view(o: Option<String>) -> Option<Seq<char>> {
    match o {
        Some(s) => Some(s@),
        None => None,
    }
}

/// The view of an optional algorithm list: the algorithm sequence, if
/// present.
pub open spec fn opt_algorithms_view(o: Option<Vec<ThemeAlgorithm>>) -> Option<
    Seq<ThemeAlgorithm>,
> {
    match o {
        Some(v) => Some(v@),
        None => None,
    }
}

/// Theme algorithm variants: a closed enumeration of named visual styles.
#[derive(Clone, Copy, Debug, PartialEq, Eq, Structural)]
pub enum ThemeAlgorithm {
    /// Default theme: the identity transform.
    Default,
    /// Dark theme: replaces colors, background, border, shadow and
    /// disabled-state fields.
    Dark,
    /// Compact theme: replaces font size, border radius and line height.
    Compact,
}

/// Theme token: a flat, immutable record of named design values.
///
/// Numeric design values (`line_height`, `disabled_opacity`) are held in
/// their rendered decimal form, exactly as they appear in generated CSS.
#[derive(Debug, PartialEq)]
pub struct ThemeToken {
    /// Primary color
    pub primary_color: String,
    /// Success color
    pub success_color: String,
    /// Warning color
    pub warning_color: String,
    /// Error color
    pub error_color: String,
    /// Font size base
    pub font_size_base: String,
    /// Border radius base
    pub border_radius_base: String,
    /// Line height, in rendered decimal form
    pub line_height: String,
    /// Background color
    pub background: String,
    /// Text color
    pub text_color: String,
    /// Border color
    pub border_color: String,
    /// Box shadow
    pub box_shadow: String,
    /// Disabled opacity, in rendered decimal form
    pub disabled_opacity: String,
    /// Disabled background
    pub disabled_bg: String,
    /// Disabled color
    pub disabled_color: String,
}

/// Mathematical model of a [`ThemeToken`]: each design value as a
/// character sequence.
pub ghost struct ThemeTokenView {
    /// Primary color
    pub primary_color: Seq<char>,
    /// Success color
    pub success_color: Seq<char>,
    /// Warning color
    pub warning_color: Seq<char>,
    /// Error color
    pub error_color: Seq<char>,
    /// Font size base
    pub font_size_base: Seq<char>,
    /// Border radius base
    pub border_radius_base: Seq<char>,
    /// Line height
    pub line_height: Seq<char>,
    /// Background color
    pub background: Seq<char>,
    /// Text color
    pub text_color: Seq<char>,
    /// Border color
    pub border_color: Seq<char>,
    /// Box shadow
    pub box_shadow: Seq<char>,
    /// Disabled opacity
    pub disabled_opacity: Seq<char>,
    /// Disabled background
    pub disabled_bg: Seq<char>,
    /// Disabled color
    pub disabled_color: Seq<char>,
}

impl View for ThemeToken {
    type V = ThemeTokenView;

    open spec fn view(&self) -> ThemeTokenView {
        ThemeTokenView {
            primary_color: self.primary_color@,
            success_color: self.success_color@,
            warning_color: self.warning_color@,
            error_color: self.error_color@,
            font_size_base: self.font_size_base@,
            border_radius_base: self.border_radius_base@,
            line_height: self.line_height@,
            background: self.background@,
            text_color: self.text_color@,
            border_color: self.border_color@,
            box_shadow: self.box_shadow@,
            disabled_opacity: self.disabled_opacity@,
            disabled_bg: self.disabled_bg@,
            disabled_color: self.disabled_color@,
        }
    }
}

/// The default (light) token set.
pub open spec fn default_token() -> ThemeTokenView {
    ThemeTokenView {
        primary_color: "#1890ff"@,
        success_color: "#52c41a"@,
        warning_color: "#faad14"@,
        error_color: "#f5222d"@,
        font_size_base: "14px"@,
        border_radius_base: "4px"@,
        line_height: "1.5715"@,
        background: "#ffffff"@,
        text_color: "rgba(0, 0, 0, 0.85)"@,
        border_color: "#d9d9d9"@,
        box_shadow: "0 2px 8px rgba(0, 0, 0, 0.15)"@,
        disabled_opacity: "0.6"@,
        disabled_bg: "#f5f5f5"@,
        disabled_color: "rgba(0, 0, 0, 0.25)"@,
    }
}

/// The dark algorithm: replaces every color-like field with a fixed
/// literal and leaves sizing fields untouched.
pub open spec fn dark_token(t: ThemeTokenView) -> ThemeTokenView {
    ThemeTokenView {
        primary_color: "#177ddc"@,
        background: "#141414"@,
        text_color: "rgba(255, 255, 255, 0.85)"@,
        border_color: "#434343"@,
        success_color: "#49aa19"@,
        warning_color: "#d89614"@,
        error_color: "#a61d24"@,
        box_shadow: "0 2px 8px rgba(0, 0, 0, 0.45)"@,
        disabled_bg: "#262626"@,
        disabled_color: "rgba(255, 255, 255, 0.25)"@,
        ..t
    }
}

/// The compact algorithm: replaces the sizing fields with fixed literals
/// and leaves every color-like field untouched.
pub open spec fn compact_token(t: ThemeTokenView) -> ThemeTokenView {
    ThemeTokenView {
        font_size_base: "12px"@,
        border_radius_base: "2px"@,
        line_height: "1.66667"@,
        ..t
    }
}

/// Applying one algorithm to a token set.
pub open spec fn apply_token(t: ThemeTokenView, algorithm: ThemeAlgorithm) -> ThemeTokenView {
    match algorithm {
        ThemeAlgorithm::Default => t,
        ThemeAlgorithm::Dark => dark_token(t),
        ThemeAlgorithm::Compact => compact_token(t),
    }
}

/// Applying a sequence of algorithms left to right: the last algorithm is
/// applied to the result of all the earlier ones.
pub open spec fn apply_tokens(t: ThemeTokenView, algorithms: Seq<ThemeAlgorithm>) -> ThemeTokenView
    decreases algorithms.len(),
{
    if algorithms.len() == 0 {
        t
    } else {
        apply_token(apply_tokens(t, algorithms.drop_last()), algorithms.last())
    }
}

impl Clone for ThemeToken {
    /// Clones every design value.
    fn clone(&self) -> (r: Self)
        ensures
            r@ == self@,
    {
        ThemeToken {
            primary_color: self.primary_color.clone(),
            success_color: self.success_color.clone(),
            warning_color: self.warning_color.clone(),
            error_color: self.error_color.clone(),
            font_size_base: self.font_size_base.clone(),
            border_radius_base: self.border_radius_base.clone(),
            line_height: self.line_height.clone(),
            background: self.background.clone(),
            text_color: self.text_color.clone(),
            border_color: self.border_color.clone(),
            box_shadow: self.box_shadow.clone(),
            disabled_opacity: self.disabled_opacity.clone(),
            disabled_bg: self.disabled_bg.clone(),
            disabled_color: self.disabled_color.clone(),
        }
    }
}

impl Default for ThemeToken {
    /// The default (light) token set.
    fn default() -> (r: Self)
        ensures
            r@ == default_token(),
    {
        ThemeToken {
            primary_color: "#1890ff".to_string(),
            success_color: "#52c41a".to_string(),
            warning_color: "#faad14".to_string(),
            error_color: "#f5222d".to_string(),
            font_size_base: "14px".to_string(),
            border_radius_base: "4px".to_string(),
            line_height: "1.5715".to_string(),
            background: "#ffffff".to_string(),
            text_color: "rgba(0, 0, 0, 0.85)".to_string(),
            border_color: "#d9d9d9".to_string(),
            box_shadow: "0 2px 8px rgba(0, 0, 0, 0.15)".to_string(),
            disabled_opacity: "0.6".to_string(),
            disabled_bg: "#f5f5f5".to_string(),
            disabled_color: "rgba(0, 0, 0, 0.25)".to_string(),
        }
    }
}

impl ThemeToken {
    /// Apply a theme algorithm in place, producing the transformed token
    /// set described by [`apply_token`].
    pub fn apply_algorithm(&mut self, algorithm: &ThemeAlgorithm)
        ensures
            final(self)@ == apply_token(old(self)@, *algorithm),
    {
        match algorithm {
            ThemeAlgorithm::Dark => self.apply_dark_theme(),
            ThemeAlgorithm::Compact => self.apply_compact_theme(),
            ThemeAlgorithm::Default => {}
        }
    }

    fn apply_dark_theme(&mut self)
        ensures
            final(self)@ == dark_token(old(self)@),
    {
        self.primary_color = "#177ddc".to_string();
        self.background = "#141414".to_string();
        self.text_color = "rgba(255, 255, 255, 0.85)".to_string();
        self.border_color = "#434343".to_string();
        self.success_color = "#49aa19".to_string();
        self.warning_color = "#d89614".to_string();
        self.error_color = "#a61d24".to_string();
        self.box_shadow = "0 2px 8px rgba(0, 0, 0, 0.45)".to_string();
        self.disabled_bg = "#262626".to_string();
        self.disabled_color = "rgba(255, 255, 255, 0.25)".to_string();
    }

    fn apply_compact_theme(&mut self)
        ensures
            final(self)@ == compact_token(old(self)@),
    {
        self.font_size_base = "12px".to_string();
        self.border_radius_base = "2px".to_string();
        self.line_height = "1.66667".to_string();
    }
}

impl ThemeToken {
    /// Apply a whole sequence of algorithms in place, left to right.
    pub fn apply_algorithms(&mut self, algorithms: &Vec<ThemeAlgorithm>)
        ensures
            final(self)@ == apply_tokens(old(self)@, algorithms@),
    {
        let mut i: usize = 0;
        while i < algorithms.len()
            invariant
                i <= algorithms.len(),
                self@ == apply_tokens(old(self)@, algorithms@.take(i as int)),
            decreases algorithms.len() - i,
        {
            assert(algorithms@.take(i as int + 1).drop_last() =~= algorithms@.take(i as int));
            assert(algorithms@.take(i as int + 1).last() == algorithms@[i as int]);
            self.apply_algorithm(&algorithms[i]);
            i += 1;
        }
        assert(algorithms@.take(algorithms.len() as int) =~= algorithms@);
    }
}

/// Theme configuration: a token set, an optional ordered list of
/// algorithms to apply to it, per-component overrides, the summary colors
/// derived from the token, and optional presentation settings that nested
/// providers inherit field by field.
#[derive(Debug, PartialEq)]
pub struct ThemeConfig {
    /// Theme token
    pub token: ThemeToken,
    /// Theme algorithms, applied to the token left to right
    pub algorithm: Option<Vec<ThemeAlgorithm>>,
    /// Component tokens
    pub components: ComponentTokenMap,
    /// Primary color used throughout the interface
    pub primary_color: String,
    /// Color used for informational elements
    pub info_color: String,
    /// Color used for successful operations
    pub success_color: String,
    /// Color used for warning states
    pub warning_color: String,
    /// Color used for error states
    pub error_color: String,
    /// Optional hash id distinguishing generated style blocks
    pub hash_id: Option<String>,
    /// Optional CSS variable prefix
    pub css_var_prefix: Option<String>,
    /// Optional flag asking for inline CSS variable emission
    pub inline: Option<bool>,
}

/// Mathematical model of a [`ThemeConfig`].
pub ghost struct ThemeConfigView {
    /// Theme token
    pub token: ThemeTokenView,
    /// Theme algorithms
    pub algorithm: Option<Seq<ThemeAlgorithm>>,
    /// Component tokens
    pub components: Seq<(Seq<char>, Seq<(Seq<char>, Seq<char>)>)>,
    /// Primary color
    pub primary_color: Seq<char>,
    /// Info color
    pub info_color: Seq<char>,
    /// Success color
    pub success_color: Seq<char>,
    /// Warning color
    pub warning_color: Seq<char>,
    /// Error color
    pub error_color: Seq<char>,
    /// Optional hash id
    pub hash_id: Option<Seq<char>>,
    /// Optional CSS variable prefix
    pub css_var_prefix: Option<Seq<char>>,
    /// Optional inline flag
    pub inline: Option<bool>,
}

impl View for ThemeConfig {
    type V = ThemeConfigView;

    open spec fn view(&self) -> ThemeConfigView {
        ThemeConfigView {
            token: self.token@,
            algorithm: opt_algorithms_view(self.algorithm),
            components: self.components@,
            primary_color: self.primary_color@,
            info_color: self.info_color@,
            success_color: self.success_color@,
            warning_color: self.warning_color@,
            error_color: self.error_color@,
            hash_id: opt_str_view(self.hash_id),
            css_var_prefix: opt_str_view(self.css_var_prefix),
            inline: self.inline,
        }
    }
}

/// The default theme configuration: the default token, no algorithms, no
/// component overrides, summary colors taken from the default token, and
/// no presentation settings.
pub open spec fn default_theme_config() -> ThemeConfigView {
    ThemeConfigView {
        token: default_token(),
        algorithm: None,
        components: Seq::empty(),
        primary_color: "#1890ff"@,
        info_color: "#1890ff"@,
        success_color: "#52c41a"@,
        warning_color: "#faad14"@,
        error_color: "#f5222d"@,
        hash_id: None,
        css_var_prefix: None,
        inline: None,
    }
}

impl Clone for ThemeConfig {
    /// Clones the whole configuration.
    fn clone(&self) -> (r: Self)
        ensures
            r@ == self@,
    {
        ThemeConfig {
            token: self.token.clone(),
            algorithm: match &self.algorithm {
                Some(a) => Some(clone_algorithms(a)),
                None => None,
            },
            components: self.components.clone(),
            primary_color: self.primary_color.clone(),
            info_color: self.info_color.clone(),
            success_color: self.success_color.clone(),
            warning_color: self.warning_color.clone(),
            error_color: self.error_color.clone(),
            hash_id: match &self.hash_id {
                Some(s) => Some(s.clone()),
                None => None,
            },
            css_var_prefix: match &self.css_var_prefix {
                Some(s) => Some(s.clone()),
                None => None,
            },
            inline: self.inline,
        }
    }
}

/// Copy of an algorithm list.
fn clone_algorithms(a: &Vec<ThemeAlgorithm>) -> (r: Vec<ThemeAlgorithm>)
    ensures
        r@ == a@,
{
    let mut out: Vec<ThemeAlgorithm> = Vec::new();
    let mut i: usize = 0;
    while i < a.len()
        invariant
            i <= a.len(),
            out@ == a@.take(i as int),
        decreases a.len() - i,
    {
        out.push(a[i]);
        assert(out@ =~= a@.take(i as int + 1));
        i += 1;
    }
    assert(a@.take(a.len() as int) =~= a@);
    out
}

impl Default for ThemeConfig {
    /// The default theme configuration.
    fn default() -> (r: Self)
        ensures
            r@ == default_theme_config(),
    {
        let token = ThemeToken::default();
        ThemeConfig {
            primary_color: token.primary_color.clone(),
            info_color: token.primary_color.clone(),
            success_color: token.success_color.clone(),
            warning_color: token.warning_color.clone(),
            error_color: token.error_color.clone(),
            token,
            algorithm: None,
            components: ComponentTokenMap::new(),
            hash_id: None,
            css_var_prefix: None,
            inline: None,
        }
    }
}

/// The token a theme configuration resolves to: its token with its
/// algorithm list, if any, applied left to right.
pub open spec fn resolved_token_view(c: ThemeConfigView) -> ThemeTokenView {
    match c.algorithm {
        Some(a) => apply_tokens(c.token, a),
        None => c.token,
    }
}

impl ThemeConfig {
    /// The token this configuration resolves to: the configured token with
    /// the configured algorithms, if any, applied left to right.
    pub fn resolved_token(&self) -> (r: ThemeToken)
        ensures
            r@ == resolved_token_view(self@),
    {
        let mut token = self.token.clone();
        if let Some(algorithms) = &self.algorithm {
            token.apply_algorithms(algorithms);
        }
        token
    }
}

/// A theme algorithm selection bundled with the token set and component
/// overrides it applies to.
#[derive(Debug, PartialEq)]
pub struct ThemeAlgorithmConfig {
    /// Theme algorithms
    pub algorithm: Vec<ThemeAlgorithm>,
    /// Theme token
    pub token: ThemeToken,
    /// Component tokens
    pub components: ComponentTokenMap,
}

impl Clone for ThemeAlgorithmConfig {
    /// Clones the algorithms, the token and the component overrides.
    fn clone(&self) -> (r: Self)
        ensures
            r.algorithm@ == self.algorithm@,
            r.token@ == self.token@,
            r.components@ == self.components@,
    {
        ThemeAlgorithmConfig {
            algorithm: clone_algorithms(&self.algorithm),
            token: self.token.clone(),
            components: self.components.clone(),
        }
    }
}

/// Law: the default algorithm is the identity transform.
pub proof fn lemma_apply_default_identity(t: ThemeTokenView)
    ensures
        apply_token(t, ThemeAlgorithm::Default) == t,
{
}

/// Law: applying the dark algorithm twice equals applying it once.
pub proof fn lemma_apply_dark_idempotent(t: ThemeTokenView)
    ensures
        apply_token(apply_token(t, ThemeAlgorithm::Dark), ThemeAlgorithm::Dark)
            == apply_token(t, ThemeAlgorithm::Dark),
{
}

/// Law: the dark and compact algorithms touch disjoint field subsets, so
/// they commute.
pub proof fn lemma_dark_compact_commute(t: ThemeTokenView)
    ensures
        apply_token(apply_token(t, ThemeAlgorithm::Dark), ThemeAlgorithm::Compact)
            == apply_token(apply_token(t, ThemeAlgorithm::Compact), ThemeAlgorithm::Dark),
{
}

} // verus!
