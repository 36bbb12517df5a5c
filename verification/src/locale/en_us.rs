//! Default display texts for English (US).

use crate::locale::types::{
    EmptyLocaleText, EmptyLocaleTextView, FormLocaleText, FormLocaleTextView, LocaleText,
    LocaleTextView, ModalLocaleText, ModalLocaleTextView, PopconfirmLocaleText,
    PopconfirmLocaleTextView, TableLocaleText, TableLocaleTextView, UploadLocaleText,
    UploadLocaleTextView,
};
use vstd::prelude::*;

verus! {

/// The English (US) default text bundle.
pub open spec fn en_us_texts() -> LocaleTextView {
    LocaleTextView {
        locale: "en-US"@,
        placeholder: "Please select"@,
        select_placeholder: "Please select"@,
        modal: ModalLocaleTextView { ok_text: "OK"@, cancel_text: "Cancel"@, just_ok_text: "OK"@ },
        popconfirm: PopconfirmLocaleTextView {
            ok: "OK"@,
            cancel: "Cancel"@,
            yes: "Yes"@,
            no: "No"@,
        },
        form: FormLocaleTextView { optional: "Optional"@, required: "Required"@ },
        table: TableLocaleTextView { filter_title: "Filter"@, empty_text: "No data"@ },
        upload: UploadLocaleTextView {
            upload_text: "Click to upload"@,
            remove_text: "Remove"@,
        },
        empty: EmptyLocaleTextView { description: "No data"@ },
    }
}

/// The English (US) default text bundle.
pub fn get_default_texts() -> (r: LocaleText)
    ensures
        r@ == en_us_texts(),
{
    LocaleText {
        locale: "en-US".to_string(),
        placeholder: "Please select".to_string(),
        select_placeholder: "Please select".to_string(),
        modal: ModalLocaleText {
            ok_text: "OK".to_string(),
            cancel_text: "Cancel".to_string(),
            just_ok_text: "OK".to_string(),
        },
        popconfirm: PopconfirmLocaleText {
            ok: "OK".to_string(),
            cancel: "Cancel".to_string(),
            yes: "Yes".to_string(),
            no: "No".to_string(),
        },
        form: FormLocaleText {
            optional: "Optional".to_string(),
            required: "Required".to_string(),
        },
        table: TableLocaleText {
            filter_title: "Filter".to_string(),
            empty_text: "No data".to_string(),
        },
        upload: UploadLocaleText {
            upload_text: "Click to upload".to_string(),
            remove_text: "Remove".to_string(),
        },
        empty: EmptyLocaleText { description: "No data".to_string() },
    }
}

} // verus!
