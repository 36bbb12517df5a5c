//! Locale data types: languages, text bundles and configuration.
//!
//! A [`LocaleText`] is a fixed-shape bundle of display strings for one
//! language. A [`LocaleConfig`] selects a language, carries number-format
//! settings, an optional explicit bundle, and the RTL flag.

use vstd::prelude::*;

verus! {

/// Supported languages: a closed enumeration.
#[derive(Clone, Copy, Debug, PartialEq, Eq, Structural)]
pub enum Language {
    /// Chinese (Simplified)
    ZhCN,
    /// English (US)
    EnUS,
}

/// Modal dialog localized texts.
#[derive(Debug, PartialEq)]
pub struct ModalLocaleText {
    /// OK button text
    pub ok_text: String,
    /// Cancel button text
    pub cancel_text: String,
    /// Just OK button text
    pub just_ok_text: String,
}

/// Mathematical model of [`ModalLocaleText`].
pub ghost struct ModalLocaleTextView {
    /// OK button text
    pub ok_text: Seq<char>,
    /// Cancel button text
    pub cancel_text: Seq<char>,
    /// Just OK button text
    pub just_ok_text: Seq<char>,
}

impl View for ModalLocaleText {
    type V = ModalLocaleTextView;

    open spec fn view(&self) -> ModalLocaleTextView {
        ModalLocaleTextView {
            ok_text: self.ok_text@,
            cancel_text: self.cancel_text@,
            just_ok_text: self.just_ok_text@,
        }
    }
}

impl Clone for ModalLocaleText {
    /// Clones every text.
    fn clone(&self) -> (r: Self)
        ensures
            r@ == self@,
    {
        ModalLocaleText {
            ok_text: self.ok_text.clone(),
            cancel_text: self.cancel_text.clone(),
            just_ok_text: self.just_ok_text.clone(),
        }
    }
}

/// Popconfirm component localized texts.
#[derive(Debug, PartialEq)]
pub struct PopconfirmLocaleText {
    /// OK button text
    pub ok: String,
    /// Cancel button text
    pub cancel: String,
    /// Yes button text
    pub yes: String,
    /// No button text
    pub no: String,
}

/// Mathematical model of [`PopconfirmLocaleText`].
pub ghost struct PopconfirmLocaleTextView {
    /// OK button text
    pub ok: Seq<char>,
    /// Cancel button text
    pub cancel: Seq<char>,
    /// Yes button text
    pub yes: Seq<char>,
    /// No button text
    pub no: Seq<char>,
}

impl View for PopconfirmLocaleText {
    type V = PopconfirmLocaleTextView;

    open spec fn view(&self) -> PopconfirmLocaleTextView {
        PopconfirmLocaleTextView {
            ok: self.ok@,
            cancel: self.cancel@,
            yes: self.yes@,
            no: self.no@,
        }
    }
}

impl Clone for PopconfirmLocaleText {
    /// Clones every text.
    fn clone(&self) -> (r: Self)
        ensures
            r@ == self@,
    {
        PopconfirmLocaleText {
            ok: self.ok.clone(),
            cancel: self.cancel.clone(),
            yes: self.yes.clone(),
            no: self.no.clone(),
        }
    }
}

/// Form component localized texts.
#[derive(Debug, PartialEq)]
pub struct FormLocaleText {
    /// Optional field text
    pub optional: String,
    /// Required field text
    pub required: String,
}

/// Mathematical model of [`FormLocaleText`].
pub ghost struct FormLocaleTextView {
    /// Optional field text
    pub optional: Seq<char>,
    /// Required field text
    pub required: Seq<char>,
}

impl View for FormLocaleText {
    type V = FormLocaleTextView;

    open spec fn view(&self) -> FormLocaleTextView {
        FormLocaleTextView { optional: self.optional@, required: self.required@ }
    }
}

impl Clone for FormLocaleText {
    /// Clones every text.
    fn clone(&self) -> (r: Self)
        ensures
            r@ == self@,
    {
        FormLocaleText { optional: self.optional.clone(), required: self.required.clone() }
    }
}

/// Table component localized texts.
#[derive(Debug, PartialEq)]
pub struct TableLocaleText {
    /// Filter menu title
    pub filter_title: String,
    /// Empty data text
    pub empty_text: String,
}

/// Mathematical model of [`TableLocaleText`].
pub ghost struct TableLocaleTextView {
    /// Filter menu title
    pub filter_title: Seq<char>,
    /// Empty data text
    pub empty_text: Seq<char>,
}

impl View for TableLocaleText {
    type V = TableLocaleTextView;

    open spec fn view(&self) -> TableLocaleTextView {
        TableLocaleTextView { filter_title: self.filter_title@, empty_text: self.empty_text@ }
    }
}

impl Clone for TableLocaleText {
    /// Clones every text.
    fn clone(&self) -> (r: Self)
        ensures
            r@ == self@,
    {
        TableLocaleText {
            filter_title: self.filter_title.clone(),
            empty_text: self.empty_text.clone(),
        }
    }
}

/// Upload component localized texts.
#[derive(Debug, PartialEq)]
pub struct UploadLocaleText {
    /// Upload button text
    pub upload_text: String,
    /// Remove file text
    pub remove_text: String,
}

/// Mathematical model of [`UploadLocaleText`].
pub ghost struct UploadLocaleTextView {
    /// Upload button text
    pub upload_text: Seq<char>,
    /// Remove file text
    pub remove_text: Seq<char>,
}

impl View for UploadLocaleText {
    type V = UploadLocaleTextView;

    open spec fn view(&self) -> UploadLocaleTextView {
        UploadLocaleTextView { upload_text: self.upload_text@, remove_text: self.remove_text@ }
    }
}

impl Clone for UploadLocaleText {
    /// Clones every text.
    fn clone(&self) -> (r: Self)
        ensures
            r@ == self@,
    {
        UploadLocaleText {
            upload_text: self.upload_text.clone(),
            remove_text: self.remove_text.clone(),
        }
    }
}

/// Empty state localized texts.
#[derive(Debug, PartialEq)]
pub struct EmptyLocaleText {
    /// Empty state description
    pub description: String,
}

/// Mathematical model of [`EmptyLocaleText`].
pub ghost struct EmptyLocaleTextView {
    /// Empty state description
    pub description: Seq<char>,
}

impl View for EmptyLocaleText {
    type V = EmptyLocaleTextView;

    open spec fn view(&self) -> EmptyLocaleTextView {
        EmptyLocaleTextView { description: self.description@ }
    }
}

impl Clone for EmptyLocaleText {
    /// Clones the description.
    fn clone(&self) -> (r: Self)
        ensures
            r@ == self@,
    {
        EmptyLocaleText { description: self.description.clone() }
    }
}

/// Localized text content: the fixed-shape bundle of display strings for
/// one language.
#[derive(Debug, PartialEq)]
pub struct LocaleText {
    /// Current locale code
    pub locale: String,
    /// Default placeholder text
    pub placeholder: String,
    /// Select component placeholder
    pub select_placeholder: String,
    /// Modal dialog texts
    pub modal: ModalLocaleText,
    /// Popconfirm component texts
    pub popconfirm: PopconfirmLocaleText,
    /// Form component texts
    pub form: FormLocaleText,
    /// Table component texts
    pub table: TableLocaleText,
    /// Upload component texts
    pub upload: UploadLocaleText,
    /// Empty state texts
    pub empty: EmptyLocaleText,
}

/// Mathematical model of a [`LocaleText`] bundle.
pub ghost struct LocaleTextView {
    /// Current locale code
    pub locale: Seq<char>,
    /// Default placeholder text
    pub placeholder: Seq<char>,
    /// Select component placeholder
    pub select_placeholder: Seq<char>,
    /// Modal dialog texts
    pub modal: ModalLocaleTextView,
    /// Popconfirm component texts
    pub popconfirm: PopconfirmLocaleTextView,
    /// Form component texts
    pub form: FormLocaleTextView,
    /// Table component texts
    pub table: TableLocaleTextView,
    /// Upload component texts
    pub upload: UploadLocaleTextView,
    /// Empty state texts
    pub empty: EmptyLocaleTextView,
}

impl View for LocaleText {
    type V = LocaleTextView;

    open spec fn view(&self) -> LocaleTextView {
        LocaleTextView {
            locale: self.locale@,
            placeholder: self.placeholder@,
            select_placeholder: self.select_placeholder@,
            modal: self.modal@,
            popconfirm: self.popconfirm@,
            form: self.form@,
            table: self.table@,
            upload: self.upload@,
            empty: self.empty@,
        }
    }
}

impl Clone for LocaleText {
    /// Clones the whole bundle.
    fn clone(&self) -> (r: Self)
        ensures
            r@ == self@,
    {
        LocaleText {
            locale: self.locale.clone(),
            placeholder: self.placeholder.clone(),
            select_placeholder: self.select_placeholder.clone(),
            modal: self.modal.clone(),
            popconfirm: self.popconfirm.clone(),
            form: self.form.clone(),
            table: self.table.clone(),
            upload: self.upload.clone(),
            empty: self.empty.clone(),
        }
    }
}

/// The bundle with every field empty.
pub open spec fn empty_locale_text() -> LocaleTextView {
    LocaleTextView {
        locale: Seq::empty(),
        placeholder: Seq::empty(),
        select_placeholder: Seq::empty(),
        modal: ModalLocaleTextView {
            ok_text: Seq::empty(),
            cancel_text: Seq::empty(),
            just_ok_text: Seq::empty(),
        },
        popconfirm: PopconfirmLocaleTextView {
            ok: Seq::empty(),
            cancel: Seq::empty(),
            yes: Seq::empty(),
            no: Seq::empty(),
        },
        form: FormLocaleTextView { optional: Seq::empty(), required: Seq::empty() },
        table: TableLocaleTextView { filter_title: Seq::empty(), empty_text: Seq::empty() },
        upload: UploadLocaleTextView { upload_text: Seq::empty(), remove_text: Seq::empty() },
        empty: EmptyLocaleTextView { description: Seq::empty() },
    }
}

impl Default for LocaleText {
    /// The bundle with every field empty.
    fn default() -> (r: Self)
        ensures
            r@ == empty_locale_text(),
    {
        LocaleText {
            locale: String::new(),
            placeholder: String::new(),
            select_placeholder: String::new(),
            modal: ModalLocaleText {
                ok_text: String::new(),
                cancel_text: String::new(),
                just_ok_text: String::new(),
            },
            popconfirm: PopconfirmLocaleText {
                ok: String::new(),
                cancel: String::new(),
                yes: String::new(),
                no: String::new(),
            },
            form: FormLocaleText { optional: String::new(), required: String::new() },
            table: TableLocaleText { filter_title: String::new(), empty_text: String::new() },
            upload: UploadLocaleText { upload_text: String::new(), remove_text: String::new() },
            empty: EmptyLocaleText { description: String::new() },
        }
    }
}

/// RTL configuration.
#[derive(Clone, Copy, Debug, PartialEq, Eq, Structural)]
pub struct RTLConfig {
    /// Whether RTL is enabled
    pub enabled: bool,
}

impl Default for RTLConfig {
    /// RTL is disabled by default.
    fn default() -> (r: Self)
        ensures
            r.enabled == false,
    {
        RTLConfig { enabled: false }
    }
}

/// Number format configuration.
#[derive(Debug, PartialEq)]
pub struct NumberFormatConfig {
    /// Currency symbol
    pub currency_symbol: String,
}

impl View for NumberFormatConfig {
    type V = Seq<char>;

    open spec fn view(&self) -> Seq<char> {
        self.currency_symbol@
    }
}

impl Clone for NumberFormatConfig {
    /// Clones the currency symbol.
    fn clone(&self) -> (r: Self)
        ensures
            r@ == self@,
    {
        NumberFormatConfig { currency_symbol: self.currency_symbol.clone() }
    }
}

impl Default for NumberFormatConfig {
    /// The dollar sign.
    fn default() -> (r: Self)
        ensures
            r@ == "$"@,
    {
        NumberFormatConfig { currency_symbol: "$".to_string() }
    }
}

/// Locale configuration: the language, number-format settings, an
/// optional explicit text bundle, and the RTL flag.
#[derive(Debug, PartialEq)]
pub struct LocaleConfig {
    /// Current language
    pub language: Language,
    /// Number format settings
    pub number_format: NumberFormatConfig,
    /// Custom locale texts
    pub texts: Option<LocaleText>,
    /// RTL support configuration
    pub rtl: RTLConfig,
}

/// Mathematical model of a [`LocaleConfig`].
pub ghost struct LocaleConfigView {
    /// Current language
    pub language: Language,
    /// Currency symbol
    pub number_format: Seq<char>,
    /// Custom locale texts
    pub texts: Option<LocaleTextView>,
    /// RTL support configuration
    pub rtl: RTLConfig,
}

impl View for LocaleConfig {
    type V = LocaleConfigView;

    open spec fn view(&self) -> LocaleConfigView {
        LocaleConfigView {
            language: self.language,
            number_format: self.number_format@,
            texts: match &self.texts {
                Some(t) => Some(t@),
                None => None,
            },
            rtl: self.rtl,
        }
    }
}

impl Clone for LocaleConfig {
    /// Clones the whole configuration.
    fn clone(&self) -> (r: Self)
        ensures
            r@ == self@,
    {
        LocaleConfig {
            language: self.language,
            number_format: self.number_format.clone(),
            texts: match &self.texts {
                Some(t) => Some(t.clone()),
                None => None,
            },
            rtl: self.rtl,
        }
    }
}

impl Default for LocaleConfig {
    /// Chinese, dollar currency symbol, no explicit texts, RTL disabled.
    fn default() -> (r: Self)
        ensures
            r@.language == Language::ZhCN,
            r@.number_format == "$"@,
            r@.texts is None,
            r@.rtl == (RTLConfig { enabled: false }),
    {
        LocaleConfig {
            language: Language::ZhCN,
            number_format: NumberFormatConfig::default(),
            texts: None,
            rtl: RTLConfig::default(),
        }
    }
}

} // verus!
