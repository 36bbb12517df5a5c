//! Static style sheets.
//!
//! Each function returns the literal CSS text of one style sheet; handing
//! the text to the document is left to the caller at the DOM boundary.

use vstd::prelude::*;

verus! {

/// The configuration provider styles: the provider element, its disabled
/// and size modifiers, and the attribute-gated dark and compact variable
/// overrides.
pub fn apply_styles() -> (r: String)
    ensures
        r@
            == ".ant-config-provider {\n  width: 100%;\n  height: 100%;\n  display: contents;\n}\n.ant-config-provider-disabled * {\n  cursor: not-allowed !important;\n  user-select: none !important;\n  pointer-events: none !important;\n}\n.ant-config-provider-sm {\n  font-size: 12px;\n}\n.ant-config-provider-lg {\n  font-size: 16px;\n}\n[data-theme='dark'] {\n  --ant-primary-color: #177ddc;\n  --ant-success-color: #49aa19;\n  --ant-warning-color: #d89614;\n  --ant-error-color: #a61d24;\n  color-scheme: dark;\n}\n[data-theme='compact'] {\n  --ant-font-size-base: 12px;\n  --ant-line-height-base: 1.66667;\n}\n"@,
{
    ".ant-config-provider {\n  width: 100%;\n  height: 100%;\n  display: contents;\n}\n.ant-config-provider-disabled * {\n  cursor: not-allowed !important;\n  user-select: none !important;\n  pointer-events: none !important;\n}\n.ant-config-provider-sm {\n  font-size: 12px;\n}\n.ant-config-provider-lg {\n  font-size: 16px;\n}\n[data-theme='dark'] {\n  --ant-primary-color: #177ddc;\n  --ant-success-color: #49aa19;\n  --ant-warning-color: #d89614;\n  --ant-error-color: #a61d24;\n  color-scheme: dark;\n}\n[data-theme='compact'] {\n  --ant-font-size-base: 12px;\n  --ant-line-height-base: 1.66667;\n}\n".to_string()
}

/// The locale styles: the locale wrapper, its RTL variant, and the
/// language switcher.
pub fn apply_locale() -> (r: String)
    ensures
        r@
            == ".ant-locale {\n  display: contents;\n}\n[dir=\"rtl\"] .ant-locale {\n  direction: rtl;\n}\n.ant-language-switcher {\n  display: inline-flex;\n  gap: 8px;\n}\n.ant-language-switcher button {\n  padding: 4px 8px;\n  border: 1px solid #d9d9d9;\n  border-radius: 2px;\n  background: transparent;\n  cursor: pointer;\n}\n.ant-language-switcher button:hover {\n  color: var(--ant-primary-color);\n  border-color: var(--ant-primary-color);\n}\n"@,
{
    ".ant-locale {\n  display: contents;\n}\n[dir=\"rtl\"] .ant-locale {\n  direction: rtl;\n}\n.ant-language-switcher {\n  display: inline-flex;\n  gap: 8px;\n}\n.ant-language-switcher button {\n  padding: 4px 8px;\n  border: 1px solid #d9d9d9;\n  border-radius: 2px;\n  background: transparent;\n  cursor: pointer;\n}\n.ant-language-switcher button:hover {\n  color: var(--ant-primary-color);\n  border-color: var(--ant-primary-color);\n}\n".to_string()
}

/// The global reset and body styles.
pub fn global_style() -> (r: String)
    ensures
        r@
            == "* {\n  margin: 0;\n  padding: 0;\n  box-sizing: border-box;\n}\nbody {\n  font-family: -apple-system, BlinkMacSystemFont, 'Segoe UI', Roboto, 'Helvetica Neue', Arial, 'Noto Sans', sans-serif;\n  font-size: var(--ant-font-size-base);\n  line-height: 1.5715;\n  color: rgba(0, 0, 0, 0.85);\n}\n"@,
{
    "* {\n  margin: 0;\n  padding: 0;\n  box-sizing: border-box;\n}\nbody {\n  font-family: -apple-system, BlinkMacSystemFont, 'Segoe UI', Roboto, 'Helvetica Neue', Arial, 'Noto Sans', sans-serif;\n  font-size: var(--ant-font-size-base);\n  line-height: 1.5715;\n  color: rgba(0, 0, 0, 0.85);\n}\n".to_string()
}

/// The default theme variables on the root element.
pub fn apply_theme() -> (r: String)
    ensures
        r@
            == ":root {\n  --ant-primary-color: #1890ff;\n  --ant-success-color: #52c41a;\n  --ant-warning-color: #faad14;\n  --ant-error-color: #f5222d;\n  --ant-font-size-base: 14px;\n  --ant-border-radius-base: 4px;\n}\n"@,
{
    ":root {\n  --ant-primary-color: #1890ff;\n  --ant-success-color: #52c41a;\n  --ant-warning-color: #faad14;\n  --ant-error-color: #f5222d;\n  --ant-font-size-base: 14px;\n  --ant-border-radius-base: 4px;\n}\n".to_string()
}

/// The version label styles.
pub fn apply_version_style() -> (r: String)
    ensures
        r@ == ".ant-version {\n  font-size: 14px;\n  color: rgba(0, 0, 0, 0.45);\n}\n"@,
{
    ".ant-version {\n  font-size: 14px;\n  color: rgba(0, 0, 0, 0.45);\n}\n".to_string()
}

} // verus!
