//! Provider configuration.
//!
//! A [`Config`] is the full configuration a provider establishes for its
//! subtree: class prefix, direction, sizing, theme summary colors, and
//! per-component sub-configurations. It is created with defaults,
//! optionally overridden at mount time, and read — never mutated — by
//! descendants.

use crate::theme::{opt_str_view, ThemeAlgorithm};
use vstd::prelude::*;

verus! {

/// Text direction options.
#[derive(Clone, Copy, Debug, PartialEq, Eq, Structural)]
pub enum Direction {
    /// Left to right
    Ltr,
    /// Right to left
    Rtl,
}

/// Component size options.
#[derive(Clone, Copy, Debug, PartialEq, Eq, Structural)]
pub enum ComponentSize {
    /// Small size
    Small,
    /// Medium size
    Middle,
    /// Large size
    Large,
}

/// Theme mode options.
#[derive(Clone, Copy, Debug, PartialEq, Eq, Structural)]
pub enum ThemeMode {
    /// Dark theme
    Dark,
    /// Light theme
    Light,
    /// Compact theme
    Compact,
}

/// Space size options, with custom sizes in whole pixels.
#[derive(Clone, Copy, Debug, PartialEq, Eq, Structural)]
pub enum SpaceSize {
    /// Small spacing
    Small,
    /// Medium spacing
    Middle,
    /// Large spacing
    Large,
    /// Custom spacing, in pixels
    Custom(u32),
}

/// The spacing in pixels that a space size stands for.
pub open spec fn space_size_px_view(size: SpaceSize) -> u32 {
    match size {
        SpaceSize::Small => 8u32,
        SpaceSize::Middle => 16u32,
        SpaceSize::Large => 24u32,
        SpaceSize::Custom(px) => px,
    }
}

/// The spacing in pixels that a space size stands for.
pub fn space_size_px(size: &SpaceSize) -> (r: u32)
    ensures
        r == space_size_px_view(*size),
{
    match size {
        SpaceSize::Small => 8,
        SpaceSize::Middle => 16,
        SpaceSize::Large => 24,
        SpaceSize::Custom(px) => *px,
    }
}

/// Theme summary colors.
#[derive(Debug, PartialEq)]
pub struct Theme {
    /// Primary color
    pub primary_color: String,
    /// Info color
    pub info_color: String,
    /// Success color
    pub success_color: String,
    /// Warning color
    pub warning_color: String,
    /// Error color
    pub error_color: String,
}

/// Mathematical model of a [`Theme`].
pub ghost struct ThemeView {
    /// Primary color
    pub primary_color: Seq<char>,
    /// Info color
    pub info_color: Seq<char>,
    /// Success color
    pub success_color: Seq<char>,
    /// Warning color
    pub warning_color: Seq<char>,
    /// Error color
    pub error_color: Seq<char>,
}

impl View for Theme {
    type V = ThemeView;

    open spec fn view(&self) -> ThemeView {
        ThemeView {
            primary_color: self.primary_color@,
            info_color: self.info_color@,
            success_color: self.success_color@,
            warning_color: self.warning_color@,
            error_color: self.error_color@,
        }
    }
}

/// The default theme summary colors.
pub open spec fn default_theme() -> ThemeView {
    ThemeView {
        primary_color: "#1890ff"@,
        info_color: "#1890ff"@,
        success_color: "#52c41a"@,
        warning_color: "#faad14"@,
        error_color: "#ff4d4f"@,
    }
}

impl Clone for Theme {
    /// Clones every color.
    fn clone(&self) -> (r: Self)
        ensures
            r@ == self@,
    {
        Theme {
            primary_color: self.primary_color.clone(),
            info_color: self.info_color.clone(),
            success_color: self.success_color.clone(),
            warning_color: self.warning_color.clone(),
            error_color: self.error_color.clone(),
        }
    }
}

impl Default for Theme {
    /// The default theme summary colors.
    fn default() -> (r: Self)
        ensures
            r@ == default_theme(),
    {
        Theme {
            primary_color: "#1890ff".to_string(),
            info_color: "#1890ff".to_string(),
            success_color: "#52c41a".to_string(),
            warning_color: "#faad14".to_string(),
            error_color: "#ff4d4f".to_string(),
        }
    }
}

/// The theme summary colors derived from a primary color by a sequence of
/// algorithms, applied left to right: the dark algorithm replaces the
/// palette colors with fixed literals, while the default and compact
/// algorithms leave the colors unchanged.
pub open spec fn theme_colors(primary: Seq<char>, algorithms: Seq<ThemeAlgorithm>) -> ThemeView
    decreases algorithms.len(),
{
    if algorithms.len() == 0 {
        ThemeView {
            primary_color: primary,
            info_color: primary,
            success_color: "#52c41a"@,
            warning_color: "#faad14"@,
            error_color: "#ff4d4f"@,
        }
    } else {
        let prev = theme_colors(primary, algorithms.drop_last());
        match algorithms.last() {
            ThemeAlgorithm::Dark => ThemeView {
                primary_color: "#177ddc"@,
                success_color: "#49aa19"@,
                warning_color: "#d89614"@,
                error_color: "#a61d24"@,
                ..prev
            },
            ThemeAlgorithm::Compact => prev,
            ThemeAlgorithm::Default => prev,
        }
    }
}

/// Generate theme summary colors from a primary color and an optional
/// algorithm sequence.
pub fn generate_colors(primary_color: &str, algorithm: Option<&Vec<ThemeAlgorithm>>) -> (r: Theme)
    ensures
        r@ == theme_colors(
            primary_color@,
            match algorithm {
                Some(a) => a@,
                None => Seq::<ThemeAlgorithm>::empty(),
            },
        ),
{
    let mut theme = Theme {
        primary_color: primary_color.to_string(),
        info_color: primary_color.to_string(),
        success_color: "#52c41a".to_string(),
        warning_color: "#faad14".to_string(),
        error_color: "#ff4d4f".to_string(),
    };
    match algorithm {
        Some(algorithms) => {
            let mut i: usize = 0;
            while i < algorithms.len()
                invariant
                    i <= algorithms.len(),
                    theme@ == theme_colors(primary_color@, algorithms@.take(i as int)),
                decreases algorithms.len() - i,
            {
                assert(algorithms@.take(i as int + 1).drop_last() =~= algorithms@.take(i as int));
                assert(algorithms@.take(i as int + 1).last() == algorithms@[i as int]);
                match algorithms[i] {
                    ThemeAlgorithm::Dark => {
                        theme.primary_color = "#177ddc".to_string();
                        theme.success_color = "#49aa19".to_string();
                        theme.warning_color = "#d89614".to_string();
                        theme.error_color = "#a61d24".to_string();
                    },
                    ThemeAlgorithm::Compact => {},
                    ThemeAlgorithm::Default => {},
                }
                i += 1;
            }
            assert(algorithms@.take(algorithms.len() as int) =~= algorithms@);
            theme
        },
        None => theme,
    }
}

/// Warning configuration.
#[derive(Clone, Copy, Debug, PartialEq, Eq, Structural)]
pub struct WarningConfig {
    /// Whether to show warnings
    pub show_warnings: bool,
}

impl Default for WarningConfig {
    /// Warnings are shown by default.
    fn default() -> (r: Self)
        ensures
            r.show_warnings == true,
    {
        WarningConfig { show_warnings: true }
    }
}

/// Length validation messages.
#[derive(Debug, PartialEq)]
pub struct ValidateLengthMessages {
    /// Min length message
    pub min: String,
    /// Max length message
    pub max: String,
    /// Range length message
    pub range: String,
}

/// Mathematical model of [`ValidateLengthMessages`].
pub ghost struct ValidateLengthMessagesView {
    /// Min length message
    pub min: Seq<char>,
    /// Max length message
    pub max: Seq<char>,
    /// Range length message
    pub range: Seq<char>,
}

impl View for ValidateLengthMessages {
    type V = ValidateLengthMessagesView;

    open spec fn view(&self) -> ValidateLengthMessagesView {
        ValidateLengthMessagesView { min: self.min@, max: self.max@, range: self.range@ }
    }
}

/// The default length validation messages.
pub open spec fn default_validate_length_messages() -> ValidateLengthMessagesView {
    ValidateLengthMessagesView {
        min: "${label} must be at least ${min} characters"@,
        max: "${label} cannot be longer than ${max} characters"@,
        range: "${label} must be between ${min} and ${max} characters"@,
    }
}

impl Clone for ValidateLengthMessages {
    /// Clones every message.
    fn clone(&self) -> (r: Self)
        ensures
            r@ == self@,
    {
        ValidateLengthMessages {
            min: self.min.clone(),
            max: self.max.clone(),
            range: self.range.clone(),
        }
    }
}

impl Default for ValidateLengthMessages {
    /// The default length validation messages.
    fn default() -> (r: Self)
        ensures
            r@ == default_validate_length_messages(),
    {
        ValidateLengthMessages {
            min: "${label} must be at least ${min} characters".to_string(),
            max: "${label} cannot be longer than ${max} characters".to_string(),
            range: "${label} must be between ${min} and ${max} characters".to_string(),
        }
    }
}

/// Type validation messages.
#[derive(Debug, PartialEq)]
pub struct ValidateTypeMessages {
    /// String type message
    pub string: String,
    /// Number type message
    pub number: String,
    /// Array type message
    pub array: String,
}

/// Mathematical model of [`ValidateTypeMessages`].
pub ghost struct ValidateTypeMessagesView {
    /// String type message
    pub string: Seq<char>,
    /// Number type message
    pub number: Seq<char>,
    /// Array type message
    pub array: Seq<char>,
}

impl View for ValidateTypeMessages {
    type V = ValidateTypeMessagesView;

    open spec fn view(&self) -> ValidateTypeMessagesView {
        ValidateTypeMessagesView { string: self.string@, number: self.number@, array: self.array@ }
    }
}

/// The default type validation messages.
pub open spec fn default_validate_type_messages() -> ValidateTypeMessagesView {
    ValidateTypeMessagesView {
        string: "${label} is not a valid string"@,
        number: "${label} is not a valid number"@,
        array: "${label} is not a valid array"@,
    }
}

impl Clone for ValidateTypeMessages {
    /// Clones every message.
    fn clone(&self) -> (r: Self)
        ensures
            r@ == self@,
    {
        ValidateTypeMessages {
            string: self.string.clone(),
            number: self.number.clone(),
            array: self.array.clone(),
        }
    }
}

impl Default for ValidateTypeMessages {
    /// The default type validation messages.
    fn default() -> (r: Self)
        ensures
            r@ == default_validate_type_messages(),
    {
        ValidateTypeMessages {
            string: "${label} is not a valid string".to_string(),
            number: "${label} is not a valid number".to_string(),
            array: "${label} is not a valid array".to_string(),
        }
    }
}

/// Form validation messages.
#[derive(Debug, PartialEq)]
pub struct ValidateMessages {
    /// Required field message
    pub required: String,
    /// Types validation messages
    pub types: ValidateTypeMessages,
    /// Length validation messages
    pub length: ValidateLengthMessages,
}

/// Mathematical model of [`ValidateMessages`].
pub ghost struct ValidateMessagesView {
    /// Required field message
    pub required: Seq<char>,
    /// Types validation messages
    pub types: ValidateTypeMessagesView,
    /// Length validation messages
    pub length: ValidateLengthMessagesView,
}

impl View for ValidateMessages {
    type V = ValidateMessagesView;

    open spec fn view(&self) -> ValidateMessagesView {
        ValidateMessagesView {
            required: self.required@,
            types: self.types@,
            length: self.length@,
        }
    }
}

/// The default validation messages.
pub open spec fn default_validate_messages() -> ValidateMessagesView {
    ValidateMessagesView {
        required: "${label} is required"@,
        types: default_validate_type_messages(),
        length: default_validate_length_messages(),
    }
}

impl Clone for ValidateMessages {
    /// Clones every message.
    fn clone(&self) -> (r: Self)
        ensures
            r@ == self@,
    {
        ValidateMessages {
            required: self.required.clone(),
            types: self.types.clone(),
            length: self.length.clone(),
        }
    }
}

impl Default for ValidateMessages {
    /// The default validation messages.
    fn default() -> (r: Self)
        ensures
            r@ == default_validate_messages(),
    {
        ValidateMessages {
            required: "${label} is required".to_string(),
            types: ValidateTypeMessages::default(),
            length: ValidateLengthMessages::default(),
        }
    }
}

/// Form configuration.
#[derive(Debug, PartialEq)]
pub struct FormConfig {
    /// Validation messages
    pub validate_messages: ValidateMessages,
    /// Whether to scroll to first error field
    pub scroll_to_first_error: bool,
    /// Whether to require fields have a value
    pub require_mark: bool,
}

/// Mathematical model of a [`FormConfig`].
pub ghost struct FormConfigView {
    /// Validation messages
    pub validate_messages: ValidateMessagesView,
    /// Whether to scroll to first error field
    pub scroll_to_first_error: bool,
    /// Whether to require fields have a value
    pub require_mark: bool,
}

impl View for FormConfig {
    type V = FormConfigView;

    open spec fn view(&self) -> FormConfigView {
        FormConfigView {
            validate_messages: self.validate_messages@,
            scroll_to_first_error: self.scroll_to_first_error,
            require_mark: self.require_mark,
        }
    }
}

/// The default form configuration.
pub open spec fn default_form_config() -> FormConfigView {
    FormConfigView {
        validate_messages: default_validate_messages(),
        scroll_to_first_error: true,
        require_mark: true,
    }
}

impl Clone for FormConfig {
    /// Clones the whole form configuration.
    fn clone(&self) -> (r: Self)
        ensures
            r@ == self@,
    {
        FormConfig {
            validate_messages: self.validate_messages.clone(),
            scroll_to_first_error: self.scroll_to_first_error,
            require_mark: self.require_mark,
        }
    }
}

impl Default for FormConfig {
    /// The default form configuration.
    fn default() -> (r: Self)
        ensures
            r@ == default_form_config(),
    {
        FormConfig {
            validate_messages: ValidateMessages::default(),
            scroll_to_first_error: true,
            require_mark: true,
        }
    }
}

/// Input component configuration.
#[derive(Debug, PartialEq)]
pub struct InputConfig {
    /// Whether to automatically focus the first field
    pub auto_focus: bool,
    /// Custom border color
    pub border_color: Option<String>,
}

/// Mathematical model of an [`InputConfig`].
pub ghost struct InputConfigView {
    /// Whether to automatically focus the first field
    pub auto_focus: bool,
    /// Custom border color
    pub border_color: Option<Seq<char>>,
}

impl View for InputConfig {
    type V = InputConfigView;

    open spec fn view(&self) -> InputConfigView {
        InputConfigView {
            auto_focus: self.auto_focus,
            border_color: opt_str_view(self.border_color),
        }
    }
}

/// The default input configuration.
pub open spec fn default_input_config() -> InputConfigView {
    InputConfigView { auto_focus: false, border_color: None }
}

impl Clone for InputConfig {
    /// Clones the whole input configuration.
    fn clone(&self) -> (r: Self)
        ensures
            r@ == self@,
    {
        InputConfig {
            auto_focus: self.auto_focus,
            border_color: match &self.border_color {
                Some(c) => Some(c.clone()),
                None => None,
            },
        }
    }
}

impl Default for InputConfig {
    /// The default input configuration.
    fn default() -> (r: Self)
        ensures
            r@ == default_input_config(),
    {
        InputConfig { auto_focus: false, border_color: None }
    }
}

/// Select component configuration.
#[derive(Debug, PartialEq)]
pub struct SelectConfig {
    /// Empty content
    pub empty_text: String,
    /// Loading text
    pub loading_text: String,
}

/// Mathematical model of a [`SelectConfig`].
pub ghost struct SelectConfigView {
    /// Empty content
    pub empty_text: Seq<char>,
    /// Loading text
    pub loading_text: Seq<char>,
}

impl View for SelectConfig {
    type V = SelectConfigView;

    open spec fn view(&self) -> SelectConfigView {
        SelectConfigView { empty_text: self.empty_text@, loading_text: self.loading_text@ }
    }
}

/// The default select configuration.
pub open spec fn default_select_config() -> SelectConfigView {
    SelectConfigView { empty_text: "No data"@, loading_text: "Loading..."@ }
}

impl Clone for SelectConfig {
    /// Clones the whole select configuration.
    fn clone(&self) -> (r: Self)
        ensures
            r@ == self@,
    {
        SelectConfig {
            empty_text: self.empty_text.clone(),
            loading_text: self.loading_text.clone(),
        }
    }
}

impl Default for SelectConfig {
    /// The default select configuration.
    fn default() -> (r: Self)
        ensures
            r@ == default_select_config(),
    {
        SelectConfig {
            empty_text: "No data".to_string(),
            loading_text: "Loading...".to_string(),
        }
    }
}

/// Pagination configuration.
#[derive(Clone, Copy, Debug, PartialEq, Eq, Structural)]
pub struct PaginationConfig {
    /// Show size changer
    pub show_size_changer: bool,
    /// Show quick jumper
    pub show_quick_jumper: bool,
}

impl Default for PaginationConfig {
    /// The default pagination configuration.
    fn default() -> (r: Self)
        ensures
            r.show_size_changer == true,
            r.show_quick_jumper == false,
    {
        PaginationConfig { show_size_changer: true, show_quick_jumper: false }
    }
}

/// Modal dialog configuration.
#[derive(Debug, PartialEq)]
pub struct ModalConfig {
    /// Default close button text
    pub close_text: String,
    /// Default OK button text
    pub ok_text: String,
}

/// Mathematical model of a [`ModalConfig`].
pub ghost struct ModalConfigView {
    /// Default close button text
    pub close_text: Seq<char>,
    /// Default OK button text
    pub ok_text: Seq<char>,
}

impl View for ModalConfig {
    type V = ModalConfigView;

    open spec fn view(&self) -> ModalConfigView {
        ModalConfigView { close_text: self.close_text@, ok_text: self.ok_text@ }
    }
}

/// The default modal configuration.
pub open spec fn default_modal_config() -> ModalConfigView {
    ModalConfigView { close_text: "Cancel"@, ok_text: "OK"@ }
}

impl Clone for ModalConfig {
    /// Clones the whole modal configuration.
    fn clone(&self) -> (r: Self)
        ensures
            r@ == self@,
    {
        ModalConfig { close_text: self.close_text.clone(), ok_text: self.ok_text.clone() }
    }
}

impl Default for ModalConfig {
    /// The default modal configuration.
    fn default() -> (r: Self)
        ensures
            r@ == default_modal_config(),
    {
        ModalConfig { close_text: "Cancel".to_string(), ok_text: "OK".to_string() }
    }
}

/// Space configuration.
#[derive(Clone, Copy, Debug, PartialEq, Eq, Structural)]
pub struct SpaceConfig {
    /// Default size
    pub size: SpaceSize,
}

impl Default for SpaceConfig {
    /// The default space configuration.
    fn default() -> (r: Self)
        ensures
            r.size == SpaceSize::Small,
    {
        SpaceConfig { size: SpaceSize::Small }
    }
}

/// Virtual scroll configuration, with row heights in whole pixels.
#[derive(Clone, Copy, Debug, PartialEq, Eq, Structural)]
pub struct VirtualConfig {
    /// Height of each row, in pixels
    pub item_height: u32,
}

impl Default for VirtualConfig {
    /// The default virtual scroll configuration.
    fn default() -> (r: Self)
        ensures
            r.item_height == 24u32,
    {
        VirtualConfig { item_height: 24 }
    }
}

/// Popup container configuration: the id of the element that popup
/// elements attach to, when one has been chosen.
#[derive(Debug, PartialEq)]
pub struct PopupContainer {
    /// Id of the chosen container element
    pub container_id: Option<String>,
}

impl View for PopupContainer {
    type V = Option<Seq<char>>;

    open spec fn view(&self) -> Option<Seq<char>> {
        opt_str_view(self.container_id)
    }
}

impl Clone for PopupContainer {
    /// Clones the container id.
    fn clone(&self) -> (r: Self)
        ensures
            r@ == self@,
    {
        PopupContainer {
            container_id: match &self.container_id {
                Some(id) => Some(id.clone()),
                None => None,
            },
        }
    }
}

impl Default for PopupContainer {
    /// No container element chosen.
    fn default() -> (r: Self)
        ensures
            r@ == Option::<Seq<char>>::None,
    {
        PopupContainer { container_id: None }
    }
}

/// Component token configuration: motion settings shared by components.
#[derive(Debug, PartialEq)]
pub struct ComponentToken {
    /// Motion duration, in milliseconds
    pub motion_duration_mid: u32,
    /// Motion duration for fast animations, in milliseconds
    pub motion_duration_fast: u32,
    /// Motion ease in out
    pub motion_ease_in_out: String,
    /// Motion ease out
    pub motion_ease_out: String,
    /// Motion base, in milliseconds
    pub motion_base: u32,
}

/// Mathematical model of a motion [`ComponentToken`].
pub ghost struct ComponentTokenView {
    /// Motion duration, in milliseconds
    pub motion_duration_mid: u32,
    /// Motion duration for fast animations, in milliseconds
    pub motion_duration_fast: u32,
    /// Motion ease in out
    pub motion_ease_in_out: Seq<char>,
    /// Motion ease out
    pub motion_ease_out: Seq<char>,
    /// Motion base, in milliseconds
    pub motion_base: u32,
}

impl View for ComponentToken {
    type V = ComponentTokenView;

    open spec fn view(&self) -> ComponentTokenView {
        ComponentTokenView {
            motion_duration_mid: self.motion_duration_mid,
            motion_duration_fast: self.motion_duration_fast,
            motion_ease_in_out: self.motion_ease_in_out@,
            motion_ease_out: self.motion_ease_out@,
            motion_base: self.motion_base,
        }
    }
}

/// The default motion component token.
pub open spec fn default_component_token() -> ComponentTokenView {
    ComponentTokenView {
        motion_duration_mid: 200u32,
        motion_duration_fast: 100u32,
        motion_ease_in_out: "cubic-bezier(0.645, 0.045, 0.355, 1)"@,
        motion_ease_out: "cubic-bezier(0.215, 0.61, 0.355, 1)"@,
        motion_base: 100u32,
    }
}

impl Clone for ComponentToken {
    /// Clones the whole motion token.
    fn clone(&self) -> (r: Self)
        ensures
            r@ == self@,
    {
        ComponentToken {
            motion_duration_mid: self.motion_duration_mid,
            motion_duration_fast: self.motion_duration_fast,
            motion_ease_in_out: self.motion_ease_in_out.clone(),
            motion_ease_out: self.motion_ease_out.clone(),
            motion_base: self.motion_base,
        }
    }
}

impl Default for ComponentToken {
    /// The default motion component token.
    fn default() -> (r: Self)
        ensures
            r@ == default_component_token(),
    {
        ComponentToken {
            motion_duration_mid: 200,
            motion_duration_fast: 100,
            motion_ease_in_out: "cubic-bezier(0.645, 0.045, 0.355, 1)".to_string(),
            motion_ease_out: "cubic-bezier(0.215, 0.61, 0.355, 1)".to_string(),
            motion_base: 100,
        }
    }
}

/// Configuration options for the configuration provider.
#[derive(Debug, PartialEq)]
pub struct Config {
    /// CSS class prefix for all components
    pub prefix_cls: String,
    /// Text direction for the application
    pub direction: Direction,
    /// Default size for components
    pub size: ComponentSize,
    /// Theme summary colors
    pub theme: Theme,
    /// Whether to show warnings in console
    pub warning_config: WarningConfig,
    /// Icon configuration
    pub icon_prefix_cls: String,
    /// Whether components use CSS variables
    pub use_css_vars: bool,
    /// Form validation messages
    pub form: FormConfig,
    /// Input component configuration
    pub input: InputConfig,
    /// Select component configuration
    pub select: SelectConfig,
    /// Pagination configuration
    pub pagination: PaginationConfig,
    /// Modal dialog configuration
    pub modal: ModalConfig,
    /// Space configuration
    pub space: SpaceConfig,
    /// Virtual scroll configuration
    pub virtual_config: VirtualConfig,
    /// Container for popup elements
    pub popup_container: Option<PopupContainer>,
    /// Auto insert space in button
    pub auto_insert_space_in_button: bool,
    /// Component token config
    pub component_token: ComponentToken,
    /// Component size
    pub component_size: Option<ComponentSize>,
    /// Component disabled state
    pub component_disabled: bool,
}

/// Mathematical model of a [`Config`].
pub ghost struct ConfigView {
    /// CSS class prefix for all components
    pub prefix_cls: Seq<char>,
    /// Text direction for the application
    pub direction: Direction,
    /// Default size for components
    pub size: ComponentSize,
    /// Theme summary colors
    pub theme: ThemeView,
    /// Whether to show warnings in console
    pub warning_config: WarningConfig,
    /// Icon configuration
    pub icon_prefix_cls: Seq<char>,
    /// Whether components use CSS variables
    pub use_css_vars: bool,
    /// Form validation messages
    pub form: FormConfigView,
    /// Input component configuration
    pub input: InputConfigView,
    /// Select component configuration
    pub select: SelectConfigView,
    /// Pagination configuration
    pub pagination: PaginationConfig,
    /// Modal dialog configuration
    pub modal: ModalConfigView,
    /// Space configuration
    pub space: SpaceConfig,
    /// Virtual scroll configuration
    pub virtual_config: VirtualConfig,
    /// Container for popup elements
    pub popup_container: Option<Option<Seq<char>>>,
    /// Auto insert space in button
    pub auto_insert_space_in_button: bool,
    /// Component token config
    pub component_token: ComponentTokenView,
    /// Component size
    pub component_size: Option<ComponentSize>,
    /// Component disabled state
    pub component_disabled: bool,
}

impl View for Config {
    type V = ConfigView;

    open spec fn view(&self) -> ConfigView {
        ConfigView {
            prefix_cls: self.prefix_cls@,
            direction: self.direction,
            size: self.size,
            theme: self.theme@,
            warning_config: self.warning_config,
            icon_prefix_cls: self.icon_prefix_cls@,
            use_css_vars: self.use_css_vars,
            form: self.form@,
            input: self.input@,
            select: self.select@,
            pagination: self.pagination,
            modal: self.modal@,
            space: self.space,
            virtual_config: self.virtual_config,
            popup_container: match &self.popup_container {
                Some(p) => Some(p@),
                None => None,
            },
            auto_insert_space_in_button: self.auto_insert_space_in_button,
            component_token: self.component_token@,
            component_size: self.component_size,
            component_disabled: self.component_disabled,
        }
    }
}

/// The default provider configuration.
pub open spec fn default_config() -> ConfigView {
    ConfigView {
        prefix_cls: "ant"@,
        direction: Direction::Ltr,
        size: ComponentSize::Middle,
        theme: default_theme(),
        warning_config: WarningConfig { show_warnings: true },
        icon_prefix_cls: "anticon"@,
        use_css_vars: true,
        form: default_form_config(),
        input: default_input_config(),
        select: default_select_config(),
        pagination: PaginationConfig { show_size_changer: true, show_quick_jumper: false },
        modal: default_modal_config(),
        space: SpaceConfig { size: SpaceSize::Small },
        virtual_config: VirtualConfig { item_height: 24u32 },
        popup_container: None,
        auto_insert_space_in_button: true,
        component_token: default_component_token(),
        component_size: None,
        component_disabled: false,
    }
}

impl Clone for Config {
    /// Clones the whole configuration.
    fn clone(&self) -> (r: Self)
        ensures
            r@ == self@,
    {
        Config {
            prefix_cls: self.prefix_cls.clone(),
            direction: self.direction,
            size: self.size,
            theme: self.theme.clone(),
            warning_config: self.warning_config,
            icon_prefix_cls: self.icon_prefix_cls.clone(),
            use_css_vars: self.use_css_vars,
            form: self.form.clone(),
            input: self.input.clone(),
            select: self.select.clone(),
            pagination: self.pagination,
            modal: self.modal.clone(),
            space: self.space,
            virtual_config: self.virtual_config,
            popup_container: match &self.popup_container {
                Some(p) => Some(p.clone()),
                None => None,
            },
            auto_insert_space_in_button: self.auto_insert_space_in_button,
            component_token: self.component_token.clone(),
            component_size: self.component_size,
            component_disabled: self.component_disabled,
        }
    }
}

impl Default for Config {
    /// The default provider configuration.
    fn default() -> (r: Self)
        ensures
            r@ == default_config(),
    {
        Config {
            prefix_cls: "ant".to_string(),
            direction: Direction::Ltr,
            size: ComponentSize::Middle,
            theme: Theme::default(),
            warning_config: WarningConfig::default(),
            icon_prefix_cls: "anticon".to_string(),
            use_css_vars: true,
            form: FormConfig::default(),
            input: InputConfig::default(),
            select: SelectConfig::default(),
            pagination: PaginationConfig::default(),
            modal: ModalConfig::default(),
            space: SpaceConfig::default(),
            virtual_config: VirtualConfig::default(),
            popup_container: None,
            auto_insert_space_in_button: true,
            component_token: ComponentToken::default(),
            component_size: None,
            component_disabled: false,
        }
    }
}

/// The configuration after switching to a theme mode: dark replaces the
/// palette colors with fixed literals, light restores the default colors,
/// and compact keeps the colors but switches to the small component size.
pub open spec fn set_theme_mode_view(c: ConfigView, mode: ThemeMode) -> ConfigView {
    match mode {
        ThemeMode::Dark => ConfigView {
            theme: ThemeView {
                primary_color: "#177ddc"@,
                success_color: "#49aa19"@,
                warning_color: "#d89614"@,
                error_color: "#a61d24"@,
                info_color: c.theme.info_color,
            },
            ..c
        },
        ThemeMode::Light => ConfigView { theme: default_theme(), ..c },
        ThemeMode::Compact => ConfigView { size: ComponentSize::Small, ..c },
    }
}

impl Config {
    /// Switch the configuration to a theme mode.
    pub fn set_theme_mode(&mut self, mode: ThemeMode)
        ensures
            final(self)@ == set_theme_mode_view(old(self)@, mode),
    {
        match mode {
            ThemeMode::Dark => {
                self.theme.primary_color = "#177ddc".to_string();
                self.theme.success_color = "#49aa19".to_string();
                self.theme.warning_color = "#d89614".to_string();
                self.theme.error_color = "#a61d24".to_string();
            },
            ThemeMode::Light => {
                self.theme = Theme::default();
            },
            ThemeMode::Compact => {
                self.size = ComponentSize::Small;
            },
        }
    }

    /// The id of the chosen popup container element, if one is set.
    pub fn popup_container_id(&self) -> (r: Option<&String>)
        ensures
            match r {
                Some(id) => self@.popup_container == Some(Some(id@)),
                None => self@.popup_container is None || self@.popup_container == Some(
                    Option::<Seq<char>>::None,
                ),
            },
    {
        match &self.popup_container {
            Some(p) => match &p.container_id {
                Some(id) => Some(id),
                None => None,
            },
            None => None,
        }
    }
}

} // verus!
