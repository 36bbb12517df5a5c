//! Locale text resolution.

use crate::locale::en_us::{en_us_texts, get_default_texts as en_us_default_texts};
use crate::locale::types::{Language, LocaleText, LocaleTextView};
use crate::locale::zh_cn::{get_default_texts as zh_cn_default_texts, zh_cn_texts};
use vstd::prelude::*;

verus! {

/// The bundle a language resolves to when no explicit bundle is supplied.
pub open spec fn language_texts(language: Language) -> LocaleTextView {
    match language {
        Language::ZhCN => zh_cn_texts(),
        Language::EnUS => en_us_texts(),
    }
}

/// Resolve the display texts: an explicit bundle is returned verbatim,
/// with no merging; otherwise the language's default bundle is returned.
pub fn resolve_text(language: &Language, explicit: Option<LocaleText>) -> (r: LocaleText)
    ensures
        r@ == match explicit {
            Some(t) => t@,
            None => language_texts(*language),
        },
{
    match explicit {
        Some(t) => t,
        None => match language {
            Language::ZhCN => zh_cn_default_texts(),
            Language::EnUS => en_us_default_texts(),
        },
    }
}

} // verus!
