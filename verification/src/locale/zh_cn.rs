//! Default display texts for Chinese (Simplified).

use crate::locale::types::{
    EmptyLocaleText, EmptyLocaleTextView, FormLocaleText, FormLocaleTextView, LocaleText,
    LocaleTextView, ModalLocaleText, ModalLocaleTextView, PopconfirmLocaleText,
    PopconfirmLocaleTextView, TableLocaleText, TableLocaleTextView, UploadLocaleText,
    UploadLocaleTextView,
};
use vstd::prelude::*;

verus! {

/// The Chinese (Simplified) default text bundle.
pub open spec fn zh_cn_texts() -> LocaleTextView {
    LocaleTextView {
        locale: "zh-CN"@,
        placeholder: "请选择"@,
        select_placeholder: "请选择"@,
        modal: ModalLocaleTextView { ok_text: "确定"@, cancel_text: "取消"@, just_ok_text: "确定"@ },
        popconfirm: PopconfirmLocaleTextView { ok: "确定"@, cancel: "取消"@, yes: "是"@, no: "否"@ },
        form: FormLocaleTextView { optional: "可选"@, required: "必填"@ },
        table: TableLocaleTextView { filter_title: "筛选"@, empty_text: "暂无数据"@ },
        upload: UploadLocaleTextView { upload_text: "点击上传"@, remove_text: "移除"@ },
        empty: EmptyLocaleTextView { description: "暂无数据"@ },
    }
}

/// The Chinese (Simplified) default text bundle.
pub fn get_default_texts() -> (r: LocaleText)
    ensures
        r@ == zh_cn_texts(),
{
    LocaleText {
        locale: "zh-CN".to_string(),
        placeholder: "请选择".to_string(),
        select_placeholder: "请选择".to_string(),
        modal: ModalLocaleText {
            ok_text: "确定".to_string(),
            cancel_text: "取消".to_string(),
            just_ok_text: "确定".to_string(),
        },
        popconfirm: PopconfirmLocaleText {
            ok: "确定".to_string(),
            cancel: "取消".to_string(),
            yes: "是".to_string(),
            no: "否".to_string(),
        },
        form: FormLocaleText {
            optional: "可选".to_string(),
            required: "必填".to_string(),
        },
        table: TableLocaleText {
            filter_title: "筛选".to_string(),
            empty_text: "暂无数据".to_string(),
        },
        upload: UploadLocaleText {
            upload_text: "点击上传".to_string(),
            remove_text: "移除".to_string(),
        },
        empty: EmptyLocaleText { description: "暂无数据".to_string() },
    }
}

} // verus!
