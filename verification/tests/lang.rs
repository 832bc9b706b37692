use headset_battery_indicator::lang::{lang_from_locale, system_lang, t, Key, Lang};

#[test]
fn english_texts() {
    assert_eq!(t(Lang::En, Key::no_adapter_found), "No headphone adapter found");
    assert_eq!(t(Lang::En, Key::quit_program), "Close");
    assert_eq!(t(Lang::En, Key::show_text_icon), "Show battery percentage as number icon");
}

#[test]
fn translated_texts() {
    assert_eq!(t(Lang::Fi, Key::quit_program), "Sulje");
    assert_eq!(t(Lang::Fi, Key::no_adapter_found), "Kuulokeadapteria ei löytynyt");
    assert_eq!(t(Lang::De, Key::battery_unavailable), "(Akkustand nicht verfügbar)");
    assert_eq!(t(Lang::It, Key::device_charging), "(In carica)");
    assert_eq!(t(Lang::Pt, Key::version), "Versão");
}

#[test]
fn every_text_is_present() {
    let keys = [
        Key::no_adapter_found,
        Key::view_logs,
        Key::quit_program,
        Key::device_charging,
        Key::device_disconnected,
        Key::battery_unavailable,
        Key::show_notifications,
        Key::show_text_icon,
        Key::notifications_enabled_message,
        Key::version,
        Key::update_available,
        Key::choose_icon_color,
    ];
    for lang in [Lang::En, Lang::Fi, Lang::De, Lang::It, Lang::Pt] {
        for key in keys {
            assert!(!t(lang, key).is_empty());
        }
    }
}

#[test]
fn locale_tags() {
    assert_eq!(lang_from_locale(Some("fi".to_string())), Lang::Fi);
    assert_eq!(lang_from_locale(Some("fi-FI".to_string())), Lang::Fi);
    assert_eq!(lang_from_locale(Some("de-AT".to_string())), Lang::De);
    assert_eq!(lang_from_locale(Some("de-CH".to_string())), Lang::De);
    assert_eq!(lang_from_locale(Some("it-CH".to_string())), Lang::It);
    assert_eq!(lang_from_locale(Some("pt-BR".to_string())), Lang::Pt);
    assert_eq!(lang_from_locale(Some("en-GB".to_string())), Lang::En);
    assert_eq!(lang_from_locale(Some("fi-SE".to_string())), Lang::En);
    assert_eq!(lang_from_locale(Some("".to_string())), Lang::En);
    assert_eq!(lang_from_locale(None), Lang::En);
}

#[test]
fn system_lang_answers() {
    let lang = system_lang();
    assert!(matches!(lang, Lang::En | Lang::Fi | Lang::De | Lang::It | Lang::Pt));
}
