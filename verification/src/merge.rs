//! Parent-to-child configuration merging.
//!
//! When a provider is mounted inside another provider, the effective
//! configuration starts from the parent's resolved value and overrides
//! every field for which the local patch supplies an explicit value.
//! Mapping-valued fields merge by key with local entries taking
//! precedence; optional scalar fields use the local value if present and
//! fall back to the parent's otherwise. With inheritance disabled the
//! parent is ignored entirely and defaults stand in for it.

use crate::component_token::{merge_entries, ComponentTokenMap};
use crate::component_token::{lemma_merge_entries_empty, lemma_merge_entries_empty_parent};
use crate::config::{
    ComponentSize, ComponentToken, Config, ConfigView, Direction, FormConfig, InputConfig,
    ModalConfig, PaginationConfig, PopupContainer, SelectConfig, SpaceConfig, Theme, ThemeView,
    VirtualConfig, WarningConfig, default_config,
};
use crate::theme::{
    opt_algorithms_view, opt_str_view, ThemeAlgorithm, ThemeConfig, ThemeConfigView, ThemeToken,
    ThemeTokenView, default_theme_config,
};
use vstd::prelude::*;

verus! {

/// The local value where one is supplied, else the parent's.
pub open spec fn or_else<T>(local: Option<T>, parent: T) -> T {
    match local {
        Some(v) => v,
        None => parent,
    }
}

/// A local theme configuration: every field optional, supplied fields
/// overriding the parent's, with component tokens merged by key.
#[derive(Debug, PartialEq)]
pub struct ThemeConfigPatch {
    /// Replacement theme token
    pub token: Option<ThemeToken>,
    /// Replacement algorithm list
    pub algorithm: Option<Vec<ThemeAlgorithm>>,
    /// Component tokens, merged by key into the parent's
    pub components: ComponentTokenMap,
    /// Replacement primary color
    pub primary_color: Option<String>,
    /// Replacement info color
    pub info_color: Option<String>,
    /// Replacement success color
    pub success_color: Option<String>,
    /// Replacement warning color
    pub warning_color: Option<String>,
    /// Replacement error color
    pub error_color: Option<String>,
    /// Hash id distinguishing generated style blocks
    pub hash_id: Option<String>,
    /// CSS variable prefix
    pub css_var_prefix: Option<String>,
    /// Flag asking for inline CSS variable emission
    pub inline: Option<bool>,
}

/// Mathematical model of a [`ThemeConfigPatch`].
pub ghost struct ThemeConfigPatchView {
    /// Replacement theme token
    pub token: Option<ThemeTokenView>,
    /// Replacement algorithm list
    pub algorithm: Option<Seq<ThemeAlgorithm>>,
    /// Component tokens
    pub components: Seq<(Seq<char>, Seq<(Seq<char>, Seq<char>)>)>,
    /// Replacement primary color
    pub primary_color: Option<Seq<char>>,
    /// Replacement info color
    pub info_color: Option<Seq<char>>,
    /// Replacement success color
    pub success_color: Option<Seq<char>>,
    /// Replacement warning color
    pub warning_color: Option<Seq<char>>,
    /// Replacement error color
    pub error_color: Option<Seq<char>>,
    /// Hash id
    pub hash_id: Option<Seq<char>>,
    /// CSS variable prefix
    pub css_var_prefix: Option<Seq<char>>,
    /// Inline flag
    pub inline: Option<bool>,
}

impl View for ThemeConfigPatch {
    type V = ThemeConfigPatchView;

    open spec fn view(&self) -> ThemeConfigPatchView {
        ThemeConfigPatchView {
            token: match &self.token {
                Some(t) => Some(t@),
                None => None,
            },
            algorithm: opt_algorithms_view(self.algorithm),
            components: self.components@,
            primary_color: opt_str_view(self.primary_color),
            info_color: opt_str_view(self.info_color),
            success_color: opt_str_view(self.success_color),
            warning_color: opt_str_view(self.warning_color),
            error_color: opt_str_view(self.error_color),
            hash_id: opt_str_view(self.hash_id),
            css_var_prefix: opt_str_view(self.css_var_prefix),
            inline: self.inline,
        }
    }
}

/// A patch that supplies nothing: every field absent, no component
/// entries.
pub open spec fn theme_patch_is_empty(p: ThemeConfigPatchView) -> bool {
    &&& p.token is None
    &&& p.algorithm is None
    &&& p.components.len() == 0
    &&& p.primary_color is None
    &&& p.info_color is None
    &&& p.success_color is None
    &&& p.warning_color is None
    &&& p.error_color is None
    &&& p.hash_id is None
    &&& p.css_var_prefix is None
    &&& p.inline is None
}

impl ThemeConfigPatch {
    /// A patch that supplies nothing.
    pub fn new() -> (r: Self)
        ensures
            theme_patch_is_empty(r@),
    {
        ThemeConfigPatch {
            token: None,
            algorithm: None,
            components: ComponentTokenMap::new(),
            primary_color: None,
            info_color: None,
            success_color: None,
            warning_color: None,
            error_color: None,
            hash_id: None,
            css_var_prefix: None,
            inline: None,
        }
    }
}

impl Default for ThemeConfigPatch {
    /// A patch that supplies nothing.
    fn default() -> (r: Self)
        ensures
            theme_patch_is_empty(r@),
    {
        ThemeConfigPatch::new()
    }
}

/// The merge of a local theme patch over a base theme configuration:
/// supplied fields replace the base's, component tokens merge by key with
/// local entries winning, optional scalars fall back to the base's.
pub open spec fn patched_theme_config(
    base: ThemeConfigView,
    local: ThemeConfigPatchView,
) -> ThemeConfigView {
    ThemeConfigView {
        token: or_else(local.token, base.token),
        algorithm: match local.algorithm {
            Some(a) => Some(a),
            None => base.algorithm,
        },
        components: merge_entries(base.components, local.components),
        primary_color: or_else(local.primary_color, base.primary_color),
        info_color: or_else(local.info_color, base.info_color),
        success_color: or_else(local.success_color, base.success_color),
        warning_color: or_else(local.warning_color, base.warning_color),
        error_color: or_else(local.error_color, base.error_color),
        hash_id: match local.hash_id {
            Some(h) => Some(h),
            None => base.hash_id,
        },
        css_var_prefix: match local.css_var_prefix {
            Some(p) => Some(p),
            None => base.css_var_prefix,
        },
        inline: match local.inline {
            Some(b) => Some(b),
            None => base.inline,
        },
    }
}

/// The merged theme configuration seen by descendants: the local patch
/// applied over the parent when inheriting, and over the defaults when
/// inheritance is disabled.
pub open spec fn merge_theme_config_view(
    parent: ThemeConfigView,
    local: ThemeConfigPatchView,
    inherit: bool,
) -> ThemeConfigView {
    if inherit {
        patched_theme_config(parent, local)
    } else {
        patched_theme_config(default_theme_config(), local)
    }
}

/// The local patch with defaults filled in for every field it leaves
/// unset.
pub open spec fn fill_theme_defaults_view(local: ThemeConfigPatchView) -> ThemeConfigView {
    ThemeConfigView {
        token: or_else(local.token, default_theme_config().token),
        algorithm: local.algorithm,
        components: local.components,
        primary_color: or_else(local.primary_color, default_theme_config().primary_color),
        info_color: or_else(local.info_color, default_theme_config().info_color),
        success_color: or_else(local.success_color, default_theme_config().success_color),
        warning_color: or_else(local.warning_color, default_theme_config().warning_color),
        error_color: or_else(local.error_color, default_theme_config().error_color),
        hash_id: local.hash_id,
        css_var_prefix: local.css_var_prefix,
        inline: local.inline,
    }
}

/// Law: with inheritance disabled the parent is ignored entirely — the
/// merge equals the local patch with defaults filled in, whatever the
/// parent holds.
pub proof fn lemma_merge_theme_no_inherit(parent: ThemeConfigView, local: ThemeConfigPatchView)
    ensures
        merge_theme_config_view(parent, local, false) == fill_theme_defaults_view(local),
{
    lemma_merge_entries_empty_parent(local.components);
    assert(default_theme_config().components =~~= Seq::<
        (Seq<char>, Seq<(Seq<char>, Seq<char>)>),
    >::empty());
}

/// Law: with inheritance enabled an empty local patch returns the
/// parent's configuration unchanged.
pub proof fn lemma_merge_theme_inherit_empty(parent: ThemeConfigView, local: ThemeConfigPatchView)
    requires
        theme_patch_is_empty(local),
    ensures
        merge_theme_config_view(parent, local, true) == parent,
{
    assert(local.components =~~= Seq::<(Seq<char>, Seq<(Seq<char>, Seq<char>)>)>::empty());
    lemma_merge_entries_empty(parent.components);
}

/// Merge a local theme patch into a parent theme configuration. With
/// `inherit` disabled the parent is ignored and defaults stand in for it.
pub fn merge_theme_config(parent: &ThemeConfig, local: &ThemeConfigPatch, inherit: bool) -> (r:
    ThemeConfig)
    ensures
        r@ == merge_theme_config_view(parent@, local@, inherit),
{
    let base = if inherit {
        parent.clone()
    } else {
        ThemeConfig::default()
    };
    ThemeConfig {
        token: match &local.token {
            Some(t) => t.clone(),
            None => base.token,
        },
        algorithm: match &local.algorithm {
            Some(a) => Some(clone_algorithm_list(a)),
            None => base.algorithm,
        },
        components: ComponentTokenMap::merged(&base.components, &local.components),
        primary_color: match &local.primary_color {
            Some(c) => c.clone(),
            None => base.primary_color,
        },
        info_color: match &local.info_color {
            Some(c) => c.clone(),
            None => base.info_color,
        },
        success_color: match &local.success_color {
            Some(c) => c.clone(),
            None => base.success_color,
        },
        warning_color: match &local.warning_color {
            Some(c) => c.clone(),
            None => base.warning_color,
        },
        error_color: match &local.error_color {
            Some(c) => c.clone(),
            None => base.error_color,
        },
        hash_id: match &local.hash_id {
            Some(h) => Some(h.clone()),
            None => base.hash_id,
        },
        css_var_prefix: match &local.css_var_prefix {
            Some(p) => Some(p.clone()),
            None => base.css_var_prefix,
        },
        inline: match local.inline {
            Some(b) => Some(b),
            None => base.inline,
        },
    }
}

/// The local theme patch with defaults filled in for every field it
/// leaves unset.
pub fn fill_theme_defaults(local: &ThemeConfigPatch) -> (r: ThemeConfig)
    ensures
        r@ == fill_theme_defaults_view(local@),
{
    let base = ThemeConfig::default();
    proof {
        lemma_merge_theme_no_inherit(base@, local@);
    }
    merge_theme_config(&base, local, false)
}

/// Copy of an algorithm list.
fn clone_algorithm_list(a: &Vec<ThemeAlgorithm>) -> (r: Vec<ThemeAlgorithm>)
    ensures
        r@ == a@,
{
    let mut out: Vec<ThemeAlgorithm> = Vec::new();
    let mut i: usize = 0;
    while i < a.len()
        invariant
            i <= a.len(),
            out@ == a@.take(i as int),
        decreases a.len() - i,
    {
        out.push(a[i]);
        assert(out@ =~= a@.take(i as int + 1));
        i += 1;
    }
    assert(a@.take(a.len() as int) =~= a@);
    out
}

/// A local provider configuration: every field optional, supplied fields
/// overriding the parent's.
#[derive(Debug, PartialEq)]
pub struct ConfigPatch {
    /// Replacement CSS class prefix
    pub prefix_cls: Option<String>,
    /// Replacement text direction
    pub direction: Option<Direction>,
    /// Replacement default component size
    pub size: Option<ComponentSize>,
    /// Replacement theme summary colors
    pub theme: Option<Theme>,
    /// Replacement warning configuration
    pub warning_config: Option<WarningConfig>,
    /// Replacement icon class prefix
    pub icon_prefix_cls: Option<String>,
    /// Replacement CSS variable flag
    pub use_css_vars: Option<bool>,
    /// Replacement form configuration
    pub form: Option<FormConfig>,
    /// Replacement input configuration
    pub input: Option<InputConfig>,
    /// Replacement select configuration
    pub select: Option<SelectConfig>,
    /// Replacement pagination configuration
    pub pagination: Option<PaginationConfig>,
    /// Replacement modal configuration
    pub modal: Option<ModalConfig>,
    /// Replacement space configuration
    pub space: Option<SpaceConfig>,
    /// Replacement virtual scroll configuration
    pub virtual_config: Option<VirtualConfig>,
    /// Replacement popup container
    pub popup_container: Option<PopupContainer>,
    /// Replacement auto-insert-space flag
    pub auto_insert_space_in_button: Option<bool>,
    /// Replacement motion component token
    pub component_token: Option<ComponentToken>,
    /// Replacement component size override
    pub component_size: Option<ComponentSize>,
    /// Replacement component disabled state
    pub component_disabled: Option<bool>,
}

/// Mathematical model of a [`ConfigPatch`].
pub ghost struct ConfigPatchView {
    /// Replacement CSS class prefix
    pub prefix_cls: Option<Seq<char>>,
    /// Replacement text direction
    pub direction: Option<Direction>,
    /// Replacement default component size
    pub size: Option<ComponentSize>,
    /// Replacement theme summary colors
    pub theme: Option<ThemeView>,
    /// Replacement warning configuration
    pub warning_config: Option<WarningConfig>,
    /// Replacement icon class prefix
    pub icon_prefix_cls: Option<Seq<char>>,
    /// Replacement CSS variable flag
    pub use_css_vars: Option<bool>,
    /// Replacement form configuration
    pub form: Option<crate::config::FormConfigView>,
    /// Replacement input configuration
    pub input: Option<crate::config::InputConfigView>,
    /// Replacement select configuration
    pub select: Option<crate::config::SelectConfigView>,
    /// Replacement pagination configuration
    pub pagination: Option<PaginationConfig>,
    /// Replacement modal configuration
    pub modal: Option<crate::config::ModalConfigView>,
    /// Replacement space configuration
    pub space: Option<SpaceConfig>,
    /// Replacement virtual scroll configuration
    pub virtual_config: Option<VirtualConfig>,
    /// Replacement popup container
    pub popup_container: Option<Option<Seq<char>>>,
    /// Replacement auto-insert-space flag
    pub auto_insert_space_in_button: Option<bool>,
    /// Replacement motion component token
    pub component_token: Option<crate::config::ComponentTokenView>,
    /// Replacement component size override
    pub component_size: Option<ComponentSize>,
    /// Replacement component disabled state
    pub component_disabled: Option<bool>,
}

impl View for ConfigPatch {
    type V = ConfigPatchView;

    open spec fn view(&self) -> ConfigPatchView {
        ConfigPatchView {
            prefix_cls: opt_str_view(self.prefix_cls),
            direction: self.direction,
            size: self.size,
            theme: match &self.theme {
                Some(t) => Some(t@),
                None => None,
            },
            warning_config: self.warning_config,
            icon_prefix_cls: opt_str_view(self.icon_prefix_cls),
            use_css_vars: self.use_css_vars,
            form: match &self.form {
                Some(f) => Some(f@),
                None => None,
            },
            input: match &self.input {
                Some(f) => Some(f@),
                None => None,
            },
            select: match &self.select {
                Some(f) => Some(f@),
                None => None,
            },
            pagination: self.pagination,
            modal: match &self.modal {
                Some(f) => Some(f@),
                None => None,
            },
            space: self.space,
            virtual_config: self.virtual_config,
            popup_container: match &self.popup_container {
                Some(p) => Some(p@),
                None => None,
            },
            auto_insert_space_in_button: self.auto_insert_space_in_button,
            component_token: match &self.component_token {
                Some(t) => Some(t@),
                None => None,
            },
            component_size: self.component_size,
            component_disabled: self.component_disabled,
        }
    }
}

/// A patch that supplies nothing: every field absent.
pub open spec fn config_patch_is_empty(p: ConfigPatchView) -> bool {
    &&& p.prefix_cls is None
    &&& p.direction is None
    &&& p.size is None
    &&& p.theme is None
    &&& p.warning_config is None
    &&& p.icon_prefix_cls is None
    &&& p.use_css_vars is None
    &&& p.form is None
    &&& p.input is None
    &&& p.select is None
    &&& p.pagination is None
    &&& p.modal is None
    &&& p.space is None
    &&& p.virtual_config is None
    &&& p.popup_container is None
    &&& p.auto_insert_space_in_button is None
    &&& p.component_token is None
    &&& p.component_size is None
    &&& p.component_disabled is None
}

impl ConfigPatch {
    /// A patch that supplies nothing.
    pub fn new() -> (r: Self)
        ensures
            config_patch_is_empty(r@),
    {
        ConfigPatch {
            prefix_cls: None,
            direction: None,
            size: None,
            theme: None,
            warning_config: None,
            icon_prefix_cls: None,
            use_css_vars: None,
            form: None,
            input: None,
            select: None,
            pagination: None,
            modal: None,
            space: None,
            virtual_config: None,
            popup_container: None,
            auto_insert_space_in_button: None,
            component_token: None,
            component_size: None,
            component_disabled: None,
        }
    }
}

impl Default for ConfigPatch {
    /// A patch that supplies nothing.
    fn default() -> (r: Self)
        ensures
            config_patch_is_empty(r@),
    {
        ConfigPatch::new()
    }
}

/// The merge of a local patch over a base configuration: supplied fields
/// replace the base's, the rest are kept.
pub open spec fn patched_config(base: ConfigView, local: ConfigPatchView) -> ConfigView {
    ConfigView {
        prefix_cls: or_else(local.prefix_cls, base.prefix_cls),
        direction: or_else(local.direction, base.direction),
        size: or_else(local.size, base.size),
        theme: or_else(local.theme, base.theme),
        warning_config: or_else(local.warning_config, base.warning_config),
        icon_prefix_cls: or_else(local.icon_prefix_cls, base.icon_prefix_cls),
        use_css_vars: or_else(local.use_css_vars, base.use_css_vars),
        form: or_else(local.form, base.form),
        input: or_else(local.input, base.input),
        select: or_else(local.select, base.select),
        pagination: or_else(local.pagination, base.pagination),
        modal: or_else(local.modal, base.modal),
        space: or_else(local.space, base.space),
        virtual_config: or_else(local.virtual_config, base.virtual_config),
        popup_container: match local.popup_container {
            Some(p) => Some(p),
            None => base.popup_container,
        },
        auto_insert_space_in_button: or_else(
            local.auto_insert_space_in_button,
            base.auto_insert_space_in_button,
        ),
        component_token: or_else(local.component_token, base.component_token),
        component_size: match local.component_size {
            Some(s) => Some(s),
            None => base.component_size,
        },
        component_disabled: or_else(local.component_disabled, base.component_disabled),
    }
}

/// The merged configuration seen by descendants: the local patch applied
/// over the parent when inheriting, and over the defaults when
/// inheritance is disabled.
pub open spec fn merge_config_view(
    parent: ConfigView,
    local: ConfigPatchView,
    inherit: bool,
) -> ConfigView {
    if inherit {
        patched_config(parent, local)
    } else {
        patched_config(default_config(), local)
    }
}

/// The local patch with defaults filled in for every field it leaves
/// unset.
pub open spec fn fill_config_defaults_view(local: ConfigPatchView) -> ConfigView {
    patched_config(default_config(), local)
}

/// Law: with inheritance disabled the parent is ignored entirely — the
/// merge equals the local patch with defaults filled in, whatever the
/// parent holds.
pub proof fn lemma_merge_config_no_inherit(parent: ConfigView, local: ConfigPatchView)
    ensures
        merge_config_view(parent, local, false) == fill_config_defaults_view(local),
{
}

/// Law: with inheritance enabled an empty local patch returns the
/// parent's configuration unchanged.
pub proof fn lemma_merge_config_inherit_empty(parent: ConfigView, local: ConfigPatchView)
    requires
        config_patch_is_empty(local),
    ensures
        merge_config_view(parent, local, true) == parent,
{
}

/// The local value where one is supplied, else the base's.
fn pick_copy<T: Copy>(local: Option<T>, base: T) -> (r: T)
    ensures
        r == or_else(local, base),
{
    match local {
        Some(v) => v,
        None => base,
    }
}

/// The local string where one is supplied, else the base's.
fn pick_string(local: &Option<String>, base: String) -> (r: String)
    ensures
        r@ == or_else(opt_str_view(*local), base@),
{
    match local {
        Some(s) => s.clone(),
        None => base,
    }
}

/// Merge a local configuration patch into a parent configuration. With
/// `inherit` disabled the parent is ignored and defaults stand in for it.
#[verifier::rlimit(100)]
pub fn merge_config(parent: &Config, local: &ConfigPatch, inherit: bool) -> (r: Config)
    ensures
        r@ == merge_config_view(parent@, local@, inherit),
{
    let base = if inherit {
        parent.clone()
    } else {
        Config::default()
    };
    let ghost base_view = base@;
    let fv_prefix_cls = pick_string(&local.prefix_cls, base.prefix_cls);
    let fv_direction = pick_copy(local.direction, base.direction);
    let fv_size = pick_copy(local.size, base.size);
    let fv_theme = match &local.theme {
        Some(t) => t.clone(),
        None => base.theme,
    };
    let fv_warning_config = pick_copy(local.warning_config, base.warning_config);
    let fv_icon_prefix_cls = pick_string(&local.icon_prefix_cls, base.icon_prefix_cls);
    let fv_use_css_vars = pick_copy(local.use_css_vars, base.use_css_vars);
    let fv_form = match &local.form {
        Some(f) => f.clone(),
        None => base.form,
    };
    let fv_input = match &local.input {
        Some(f) => f.clone(),
        None => base.input,
    };
    let fv_select = match &local.select {
        Some(f) => f.clone(),
        None => base.select,
    };
    let fv_pagination = pick_copy(local.pagination, base.pagination);
    let fv_modal = match &local.modal {
        Some(m) => m.clone(),
        None => base.modal,
    };
    let fv_space = pick_copy(local.space, base.space);
    let fv_virtual_config = pick_copy(local.virtual_config, base.virtual_config);
    let fv_popup_container = match &local.popup_container {
        Some(p) => Some(p.clone()),
        None => base.popup_container,
    };
    let fv_auto_insert = pick_copy(
        local.auto_insert_space_in_button,
        base.auto_insert_space_in_button,
    );
    let fv_component_token = match &local.component_token {
        Some(t) => t.clone(),
        None => base.component_token,
    };
    let fv_component_size = match local.component_size {
        Some(s) => Some(s),
        None => base.component_size,
    };
    let fv_component_disabled = pick_copy(local.component_disabled, base.component_disabled);
    let r = Config {
        prefix_cls: fv_prefix_cls,
        direction: fv_direction,
        size: fv_size,
        theme: fv_theme,
        warning_config: fv_warning_config,
        icon_prefix_cls: fv_icon_prefix_cls,
        use_css_vars: fv_use_css_vars,
        form: fv_form,
        input: fv_input,
        select: fv_select,
        pagination: fv_pagination,
        modal: fv_modal,
        space: fv_space,
        virtual_config: fv_virtual_config,
        popup_container: fv_popup_container,
        auto_insert_space_in_button: fv_auto_insert,
        component_token: fv_component_token,
        component_size: fv_component_size,
        component_disabled: fv_component_disabled,
    };
    proof {
        let target = patched_config(base_view, local@);
        assert(r@.prefix_cls == target.prefix_cls);
        assert(r@.direction == target.direction);
        assert(r@.size == target.size);
        assert(r@.theme == target.theme);
        assert(r@.warning_config == target.warning_config);
        assert(r@.icon_prefix_cls == target.icon_prefix_cls);
        assert(r@.use_css_vars == target.use_css_vars);
        assert(r@.form == target.form);
        assert(r@.input == target.input);
        assert(r@.select == target.select);
        assert(r@.pagination == target.pagination);
        assert(r@.modal == target.modal);
        assert(r@.space == target.space);
        assert(r@.virtual_config == target.virtual_config);
        assert(r@.popup_container == target.popup_container);
        assert(r@.auto_insert_space_in_button == target.auto_insert_space_in_button);
        assert(r@.component_token == target.component_token);
        assert(r@.component_size == target.component_size);
        assert(r@.component_disabled == target.component_disabled);
        assert(r@ == target);
    }
    r
}

/// The local configuration patch with defaults filled in for every field
/// it leaves unset.
pub fn fill_config_defaults(local: &ConfigPatch) -> (r: Config)
    ensures
        r@ == fill_config_defaults_view(local@),
{
    let base = Config::default();
    merge_config(&base, local, false)
}

} // verus!
