//! Matching language tags to the shipped locales.

use openlogi::config::settings::AppSettings;
use openlogi::gui::i18n::{
    apply, choose_locale, match_supported, resolve, resolve_with, shipped_locale, LanguageTag,
    SUPPORTED,
};

#[test]
fn maps_locale_variants() {
    assert_eq!(match_supported("zh-Hans-CN"), Some("zh-CN"));
    assert_eq!(match_supported("zh-CN"), Some("zh-CN"));
    assert_eq!(match_supported("zh-Hans-HK"), Some("zh-CN"));
    assert_eq!(match_supported("zh-Hant-TW"), Some("zh-TW"));
    assert_eq!(match_supported("zh-TW"), Some("zh-TW"));
    assert_eq!(match_supported("zh-Hant"), Some("zh-TW"));
    assert_eq!(match_supported("zh-HK"), Some("zh-HK"));
    assert_eq!(match_supported("zh-Hant-HK"), Some("zh-HK"));
    assert_eq!(match_supported("ja"), Some("ja"));
    assert_eq!(match_supported("ja-JP"), Some("ja"));
    assert_eq!(match_supported("ru"), Some("ru"));
    assert_eq!(match_supported("ru-RU"), Some("ru"));
    assert_eq!(match_supported("en-US"), Some("en"));
    assert_eq!(match_supported("it"), Some("it"));
    assert_eq!(match_supported("it-IT"), Some("it"));
    assert_eq!(match_supported("fr-FR"), Some("fr"));
    assert_eq!(match_supported("de"), Some("de"));
    assert_eq!(match_supported("ko-KR"), Some("ko"));
    assert_eq!(match_supported("pt"), Some("pt-PT"));
    assert_eq!(match_supported("pt-PT"), Some("pt-PT"));
    assert_eq!(match_supported("pt-BR"), Some("pt-BR"));
    assert_eq!(match_supported("nb-NO"), Some("nb"));
    assert_eq!(match_supported("no"), Some("nb"));
    assert_eq!(match_supported("nn"), Some("nb"));
    assert_eq!(match_supported("klingon"), None);
}

#[test]
fn explicit_setting_wins_over_system() {
    assert_eq!(resolve(Some("zh-CN")), "zh-CN");
    // An unknown stored code falls through to system/`en`, never panics.
    assert!(
        SUPPORTED
            .iter()
            .any(|(c, _)| *c == resolve(Some("klingon")))
    );
}

#[test]
fn resolution_prefers_the_setting_and_ends_in_english() {
    assert_eq!(resolve_with(Some("fr"), Some("de-DE")), "fr");
    assert_eq!(resolve_with(Some("klingon"), Some("de-DE")), "de");
    assert_eq!(resolve_with(None, Some("ja-JP")), "ja");
    assert_eq!(resolve_with(None, Some("klingon")), "en");
    assert_eq!(resolve_with(None, None), "en");
}

#[test]
fn stored_language_is_applied() {
    let mut settings = AppSettings::default();
    settings.language = Some("sv".to_string());
    assert_eq!(apply(&settings), "sv");
}

#[test]
fn malformed_tags_match_nothing() {
    assert_eq!(match_supported(""), None);
    assert_eq!(match_supported("not a tag"), None);
}

#[test]
fn script_and_region_decide_before_negotiation() {
    let tag = |language: &str, script: Option<&str>, region: Option<&str>| LanguageTag {
        language: language.to_string(),
        script: script.map(str::to_string),
        region: region.map(str::to_string),
    };
    assert_eq!(
        choose_locale(&tag("zh", Some("Hant"), Some("HK")), Some("zh-TW")),
        Some("zh-HK")
    );
    assert_eq!(
        choose_locale(&tag("de", None, Some("AT")), Some("de")),
        Some("de")
    );
    assert_eq!(choose_locale(&tag("tlh", None, None), None), None);
    assert_eq!(shipped_locale("pt-BR"), Some("pt-BR"));
    assert_eq!(shipped_locale("tlh"), None);
}
