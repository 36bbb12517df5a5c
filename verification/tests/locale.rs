use ant_leptos::locale::en_us;
use ant_leptos::locale::format::format_date;
use ant_leptos::locale::resolve::resolve_text;
use ant_leptos::locale::types::{Language, LocaleConfig, LocaleText};
use ant_leptos::locale::zh_cn;

#[test]
fn chinese_defaults_resolve_without_override() {
    let texts = resolve_text(&Language::ZhCN, None);
    assert_eq!(texts, zh_cn::get_default_texts());
    assert_eq!(texts.locale, "zh-CN");
    assert_eq!(texts.placeholder, "请选择");
    assert_eq!(texts.modal.ok_text, "确定");
    assert_eq!(texts.modal.cancel_text, "取消");
    assert_eq!(texts.popconfirm.yes, "是");
    assert_eq!(texts.popconfirm.no, "否");
    assert_eq!(texts.form.optional, "可选");
    assert_eq!(texts.form.required, "必填");
    assert_eq!(texts.table.filter_title, "筛选");
    assert_eq!(texts.table.empty_text, "暂无数据");
    assert_eq!(texts.upload.upload_text, "点击上传");
    assert_eq!(texts.upload.remove_text, "移除");
    assert_eq!(texts.empty.description, "暂无数据");
}

#[test]
fn english_defaults_resolve_without_override() {
    let texts = resolve_text(&Language::EnUS, None);
    assert_eq!(texts, en_us::get_default_texts());
    assert_eq!(texts.locale, "en-US");
    assert_eq!(texts.placeholder, "Please select");
    assert_eq!(texts.modal.ok_text, "OK");
    assert_eq!(texts.modal.cancel_text, "Cancel");
    assert_eq!(texts.upload.upload_text, "Click to upload");
    assert_eq!(texts.empty.description, "No data");
}

#[test]
fn explicit_override_is_returned_verbatim() {
    let mut custom = LocaleText::default();
    custom.locale = "en-US".to_string();
    custom.modal.ok_text = "Go".to_string();
    let resolved = resolve_text(&Language::EnUS, Some(custom.clone()));
    assert_eq!(resolved, custom);
    // no merging with the defaults: untouched fields stay empty
    assert_eq!(resolved.placeholder, "");
    assert_eq!(resolved.modal.cancel_text, "");
}

#[test]
fn locale_config_defaults() {
    let config = LocaleConfig::default();
    assert_eq!(config.language, Language::ZhCN);
    assert_eq!(config.number_format.currency_symbol, "$");
    assert!(config.texts.is_none());
    assert!(!config.rtl.enabled);
}

#[test]
fn format_date_renders_the_epoch() {
    let config = LocaleConfig::default();
    let formatted = format_date(0, "%Y-%m-%d", &config);
    assert_eq!(formatted, Some("1970-01-01".to_string()));
}

#[test]
fn format_date_renders_time_of_day() {
    let config = LocaleConfig::default();
    let formatted = format_date(86400 + 3661, "%Y-%m-%d %H:%M:%S", &config);
    assert_eq!(formatted, Some("1970-01-02 01:01:01".to_string()));
}

#[test]
fn format_date_is_deterministic() {
    let config = LocaleConfig::default();
    let first = format_date(1_431_648_000, "%Y-%m-%dT%H:%M:%S", &config);
    let second = format_date(1_431_648_000, "%Y-%m-%dT%H:%M:%S", &config);
    assert_eq!(first, second);
    assert_eq!(first, Some("2015-05-15T00:00:00".to_string()));
}

#[test]
fn format_date_rejects_out_of_range_timestamps() {
    let config = LocaleConfig::default();
    assert_eq!(format_date(i64::MAX, "%Y", &config), None);
}
