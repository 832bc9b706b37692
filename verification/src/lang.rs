//! Interface texts in the languages the indicator speaks, and the choice of
//! language from the system locale.
use vstd::prelude::*;

use crate::text::text_eq;

verus! {

/// A language the interface is translated into.
#[derive(Clone, Copy, Debug, PartialEq, Eq, Structural)]
pub enum Lang {
    En,
    Fi,
    De,
    It,
    Pt,
}

/// A text of the interface.
#[allow(non_camel_case_types)]
#[derive(Clone, Copy, Debug, PartialEq, Eq, Structural)]
pub enum Key {
    no_adapter_found,
    view_logs,
    quit_program,
    device_charging,
    device_disconnected,
    battery_unavailable,
    show_notifications,
    show_text_icon,
    notifications_enabled_message,
    version,
    update_available,
    choose_icon_color,
}

/// The text shown for `key` in `lang`.
pub open spec fn translation(lang: Lang, key: Key) -> &'static str {
    match lang {
        Lang::En => match key {
            Key::no_adapter_found => "No headphone adapter found",
            Key::view_logs => "View logs",
            Key::quit_program => "Close",
            Key::device_charging => "(Charging)",
            Key::device_disconnected => "(Disconnected)",
            Key::battery_unavailable => "(Battery unavailable)",
            Key::show_notifications => "Show notifications",
            Key::show_text_icon => "Show battery percentage as number icon",
            Key::notifications_enabled_message => "Notifications enabled",
            Key::version => "Version",
            Key::update_available => "Update available",
            Key::choose_icon_color => "Choose icon color",
        },
        Lang::Fi => match key {
            Key::no_adapter_found => "Kuulokeadapteria ei löytynyt",
            Key::view_logs => "Näytä lokitiedostot",
            Key::quit_program => "Sulje",
            Key::device_charging => "(Latautuu)",
            Key::device_disconnected => "(Ei yhteyttä)",
            Key::battery_unavailable => "(Akku ei saatavilla)",
            Key::show_notifications => "Näytä ilmoitukset",
            Key::show_text_icon => "Näytä akun tila numerona",
            Key::notifications_enabled_message => "Ilmoitukset käytössä",
            Key::version => "Versio",
            Key::update_available => "Päivitys saatavilla",
            Key::choose_icon_color => "Valitse ikonin väri",
        },
        Lang::De => match key {
            Key::no_adapter_found => "Kein Kopfhöreradapter gefunden",
            Key::view_logs => "Protokolle anzeigen",
            Key::quit_program => "Beenden",
            Key::device_charging => "(Wird geladen)",
            Key::device_disconnected => "(Getrennt)",
            Key::battery_unavailable => "(Akkustand nicht verfügbar)",
            Key::show_notifications => "Benachrichtigungen aktivieren",
            Key::show_text_icon => "Batteriestatus als Zahlensymbol anzeigen",
            Key::notifications_enabled_message => "Benachrichtigungen aktiviert",
            Key::version => "Version",
            Key::update_available => "Update verfügbar",
            Key::choose_icon_color => "Symbolfarbe wählen",
        },
        Lang::It => match key {
            Key::no_adapter_found => "Nessun adattatore per cuffie trovato",
            Key::view_logs => "Visualizza file di log",
            Key::quit_program => "Chiudi",
            Key::device_charging => "(In carica)",
            Key::device_disconnected => "(Disconnesso)",
            Key::battery_unavailable => "(Batteria non disponibile)",
            Key::show_notifications => "Mostra notifiche",
            Key::show_text_icon => "Mostra stato batteria come icona numerica",
            Key::notifications_enabled_message => "Notifiche attivate",
            Key::version => "Versione",
            Key::update_available => "Aggiornamento disponibile",
            Key::choose_icon_color => "Scegli colore icona",
        },
        Lang::Pt => match key {
            Key::no_adapter_found => "Não foi encontrado adaptador de auscultadores",
            Key::view_logs => "Ver registos",
            Key::quit_program => "Fechar",
            Key::device_charging => "(A carregar)",
            Key::device_disconnected => "(Desconectado)",
            Key::battery_unavailable => "(Bateria indisponível)",
            Key::show_notifications => "Mostrar notificações",
            Key::show_text_icon => "Mostrar estado da bateria como ícone numérico",
            Key::notifications_enabled_message => "Notificações habilitadas",
            Key::version => "Versão",
            Key::update_available => "Atualização disponível",
            Key::choose_icon_color => "Escolher cor do ícone",
        },
    }
}

/// The text of `key` in `lang`.
pub fn t(lang: Lang, key: Key) -> (text: &'static str)
    ensures
        text == translation(lang, key),
{
    match lang {
        Lang::En => match key {
            Key::no_adapter_found => "No headphone adapter found",
            Key::view_logs => "View logs",
            Key::quit_program => "Close",
            Key::device_charging => "(Charging)",
            Key::device_disconnected => "(Disconnected)",
            Key::battery_unavailable => "(Battery unavailable)",
            Key::show_notifications => "Show notifications",
            Key::show_text_icon => "Show battery percentage as number icon",
            Key::notifications_enabled_message => "Notifications enabled",
            Key::version => "Version",
            Key::update_available => "Update available",
            Key::choose_icon_color => "Choose icon color",
        },
        Lang::Fi => match key {
            Key::no_adapter_found => "Kuulokeadapteria ei löytynyt",
            Key::view_logs => "Näytä lokitiedostot",
            Key::quit_program => "Sulje",
            Key::device_charging => "(Latautuu)",
            Key::device_disconnected => "(Ei yhteyttä)",
            Key::battery_unavailable => "(Akku ei saatavilla)",
            Key::show_notifications => "Näytä ilmoitukset",
            Key::show_text_icon => "Näytä akun tila numerona",
            Key::notifications_enabled_message => "Ilmoitukset käytössä",
            Key::version => "Versio",
            Key::update_available => "Päivitys saatavilla",
            Key::choose_icon_color => "Valitse ikonin väri",
        },
        Lang::De => match key {
            Key::no_adapter_found => "Kein Kopfhöreradapter gefunden",
            Key::view_logs => "Protokolle anzeigen",
            Key::quit_program => "Beenden",
            Key::device_charging => "(Wird geladen)",
            Key::device_disconnected => "(Getrennt)",
            Key::battery_unavailable => "(Akkustand nicht verfügbar)",
            Key::show_notifications => "Benachrichtigungen aktivieren",
            Key::show_text_icon => "Batteriestatus als Zahlensymbol anzeigen",
            Key::notifications_enabled_message => "Benachrichtigungen aktiviert",
            Key::version => "Version",
            Key::update_available => "Update verfügbar",
            Key::choose_icon_color => "Symbolfarbe wählen",
        },
        Lang::It => match key {
            Key::no_adapter_found => "Nessun adattatore per cuffie trovato",
            Key::view_logs => "Visualizza file di log",
            Key::quit_program => "Chiudi",
            Key::device_charging => "(In carica)",
            Key::device_disconnected => "(Disconnesso)",
            Key::battery_unavailable => "(Batteria non disponibile)",
            Key::show_notifications => "Mostra notifiche",
            Key::show_text_icon => "Mostra stato batteria come icona numerica",
            Key::notifications_enabled_message => "Notifiche attivate",
            Key::version => "Versione",
            Key::update_available => "Aggiornamento disponibile",
            Key::choose_icon_color => "Scegli colore icona",
        },
        Lang::Pt => match key {
            Key::no_adapter_found => "Não foi encontrado adaptador de auscultadores",
            Key::view_logs => "Ver registos",
            Key::quit_program => "Fechar",
            Key::device_charging => "(A carregar)",
            Key::device_disconnected => "(Desconectado)",
            Key::battery_unavailable => "(Bateria indisponível)",
            Key::show_notifications => "Mostrar notificações",
            Key::show_text_icon => "Mostrar estado da bateria como ícone numérico",
            Key::notifications_enabled_message => "Notificações habilitadas",
            Key::version => "Versão",
            Key::update_available => "Atualização disponível",
            Key::choose_icon_color => "Escolher cor do ícone",
        },
    }
}

/// The language chosen for a locale tag: Finnish, German, Italian and
/// Portuguese for their tags, English for everything else.
pub open spec fn lang_for_locale(locale: Seq<char>) -> Lang {
    if locale == "fi"@ || locale == "fi-FI"@ {
        Lang::Fi
    } else if locale == "de"@ || locale == "de-DE"@ || locale == "de-AT"@ || locale == "de-CH"@ {
        Lang::De
    } else if locale == "it"@ || locale == "it-IT"@ || locale == "it-CH"@ {
        Lang::It
    } else if locale == "pt"@ || locale == "pt-PT"@ || locale == "pt-BR"@ {
        Lang::Pt
    } else {
        Lang::En
    }
}

/// The two-letter code of a language.
pub open spec fn lang_code(lang: Lang) -> Seq<char> {
    match lang {
        Lang::En => seq!['e', 'n'],
        Lang::Fi => seq!['f', 'i'],
        Lang::De => seq!['d', 'e'],
        Lang::It => seq!['i', 't'],
        Lang::Pt => seq!['p', 't'],
    }
}

/// The supported tags are pairwise different.
proof fn lemma_tags_differ()
    ensures
        "fi"@ != "fi-FI"@,
        "fi"@ != "de"@,
        "fi"@ != "de-DE"@,
        "fi"@ != "de-AT"@,
        "fi"@ != "de-CH"@,
        "fi"@ != "it"@,
        "fi"@ != "it-IT"@,
        "fi"@ != "it-CH"@,
        "fi"@ != "pt"@,
        "fi"@ != "pt-PT"@,
        "fi"@ != "pt-BR"@,
        "fi"@ != "en-US"@,
        "fi-FI"@ != "de"@,
        "fi-FI"@ != "de-DE"@,
        "fi-FI"@ != "de-AT"@,
        "fi-FI"@ != "de-CH"@,
        "fi-FI"@ != "it"@,
        "fi-FI"@ != "it-IT"@,
        "fi-FI"@ != "it-CH"@,
        "fi-FI"@ != "pt"@,
        "fi-FI"@ != "pt-PT"@,
        "fi-FI"@ != "pt-BR"@,
        "fi-FI"@ != "en-US"@,
        "de"@ != "de-DE"@,
        "de"@ != "de-AT"@,
        "de"@ != "de-CH"@,
        "de"@ != "it"@,
        "de"@ != "it-IT"@,
        "de"@ != "it-CH"@,
        "de"@ != "pt"@,
        "de"@ != "pt-PT"@,
        "de"@ != "pt-BR"@,
        "de"@ != "en-US"@,
        "de-DE"@ != "de-AT"@,
        "de-DE"@ != "de-CH"@,
        "de-DE"@ != "it"@,
        "de-DE"@ != "it-IT"@,
        "de-DE"@ != "it-CH"@,
        "de-DE"@ != "pt"@,
        "de-DE"@ != "pt-PT"@,
        "de-DE"@ != "pt-BR"@,
        "de-DE"@ != "en-US"@,
        "de-AT"@ != "de-CH"@,
        "de-AT"@ != "it"@,
        "de-AT"@ != "it-IT"@,
        "de-AT"@ != "it-CH"@,
        "de-AT"@ != "pt"@,
        "de-AT"@ != "pt-PT"@,
        "de-AT"@ != "pt-BR"@,
        "de-AT"@ != "en-US"@,
        "de-CH"@ != "it"@,
        "de-CH"@ != "it-IT"@,
        "de-CH"@ != "it-CH"@,
        "de-CH"@ != "pt"@,
        "de-CH"@ != "pt-PT"@,
        "de-CH"@ != "pt-BR"@,
        "de-CH"@ != "en-US"@,
        "it"@ != "it-IT"@,
        "it"@ != "it-CH"@,
        "it"@ != "pt"@,
        "it"@ != "pt-PT"@,
        "it"@ != "pt-BR"@,
        "it"@ != "en-US"@,
        "it-IT"@ != "it-CH"@,
        "it-IT"@ != "pt"@,
        "it-IT"@ != "pt-PT"@,
        "it-IT"@ != "pt-BR"@,
        "it-IT"@ != "en-US"@,
        "it-CH"@ != "pt"@,
        "it-CH"@ != "pt-PT"@,
        "it-CH"@ != "pt-BR"@,
        "it-CH"@ != "en-US"@,
        "pt"@ != "pt-PT"@,
        "pt"@ != "pt-BR"@,
        "pt"@ != "en-US"@,
        "pt-PT"@ != "pt-BR"@,
        "pt-PT"@ != "en-US"@,
        "pt-BR"@ != "en-US"@,
{
    reveal_strlit("fi");
    reveal_strlit("fi-FI");
    reveal_strlit("de");
    reveal_strlit("de-DE");
    reveal_strlit("de-AT");
    reveal_strlit("de-CH");
    reveal_strlit("it");
    reveal_strlit("it-IT");
    reveal_strlit("it-CH");
    reveal_strlit("pt");
    reveal_strlit("pt-PT");
    reveal_strlit("pt-BR");
    reveal_strlit("en-US");
    assert("fi"@[0] != "de"@[0]);
    assert("fi"@[0] != "it"@[0]);
    assert("fi"@[0] != "pt"@[0]);
    assert("fi-FI"@[0] != "de-DE"@[0]);
    assert("fi-FI"@[0] != "de-AT"@[0]);
    assert("fi-FI"@[0] != "de-CH"@[0]);
    assert("fi-FI"@[0] != "it-IT"@[0]);
    assert("fi-FI"@[0] != "it-CH"@[0]);
    assert("fi-FI"@[0] != "pt-PT"@[0]);
    assert("fi-FI"@[0] != "pt-BR"@[0]);
    assert("fi-FI"@[0] != "en-US"@[0]);
    assert("de"@[0] != "it"@[0]);
    assert("de"@[0] != "pt"@[0]);
    assert("de-DE"@[3] != "de-AT"@[3]);
    assert("de-DE"@[3] != "de-CH"@[3]);
    assert("de-DE"@[0] != "it-IT"@[0]);
    assert("de-DE"@[0] != "it-CH"@[0]);
    assert("de-DE"@[0] != "pt-PT"@[0]);
    assert("de-DE"@[0] != "pt-BR"@[0]);
    assert("de-DE"@[0] != "en-US"@[0]);
    assert("de-AT"@[3] != "de-CH"@[3]);
    assert("de-AT"@[0] != "it-IT"@[0]);
    assert("de-AT"@[0] != "it-CH"@[0]);
    assert("de-AT"@[0] != "pt-PT"@[0]);
    assert("de-AT"@[0] != "pt-BR"@[0]);
    assert("de-AT"@[0] != "en-US"@[0]);
    assert("de-CH"@[0] != "it-IT"@[0]);
    assert("de-CH"@[0] != "it-CH"@[0]);
    assert("de-CH"@[0] != "pt-PT"@[0]);
    assert("de-CH"@[0] != "pt-BR"@[0]);
    assert("de-CH"@[0] != "en-US"@[0]);
    assert("it"@[0] != "pt"@[0]);
    assert("it-IT"@[3] != "it-CH"@[3]);
    assert("it-IT"@[0] != "pt-PT"@[0]);
    assert("it-IT"@[0] != "pt-BR"@[0]);
    assert("it-IT"@[0] != "en-US"@[0]);
    assert("it-CH"@[0] != "pt-PT"@[0]);
    assert("it-CH"@[0] != "pt-BR"@[0]);
    assert("it-CH"@[0] != "en-US"@[0]);
    assert("pt-PT"@[3] != "pt-BR"@[3]);
    assert("pt-PT"@[0] != "en-US"@[0]);
    assert("pt-BR"@[0] != "en-US"@[0]);
    assert("fi"@.len() != "fi-FI"@.len());
    assert("fi"@.len() != "de-DE"@.len());
    assert("fi"@.len() != "de-AT"@.len());
    assert("fi"@.len() != "de-CH"@.len());
    assert("fi"@.len() != "it-IT"@.len());
    assert("fi"@.len() != "it-CH"@.len());
    assert("fi"@.len() != "pt-PT"@.len());
    assert("fi"@.len() != "pt-BR"@.len());
    assert("fi"@.len() != "en-US"@.len());
    assert("fi-FI"@.len() != "de"@.len());
    assert("fi-FI"@.len() != "it"@.len());
    assert("fi-FI"@.len() != "pt"@.len());
    assert("de"@.len() != "de-DE"@.len());
    assert("de"@.len() != "de-AT"@.len());
    assert("de"@.len() != "de-CH"@.len());
    assert("de"@.len() != "it-IT"@.len());
    assert("de"@.len() != "it-CH"@.len());
    assert("de"@.len() != "pt-PT"@.len());
    assert("de"@.len() != "pt-BR"@.len());
    assert("de"@.len() != "en-US"@.len());
    assert("de-DE"@.len() != "it"@.len());
    assert("de-DE"@.len() != "pt"@.len());
    assert("de-AT"@.len() != "it"@.len());
    assert("de-AT"@.len() != "pt"@.len());
    assert("de-CH"@.len() != "it"@.len());
    assert("de-CH"@.len() != "pt"@.len());
    assert("it"@.len() != "it-IT"@.len());
    assert("it"@.len() != "it-CH"@.len());
    assert("it"@.len() != "pt-PT"@.len());
    assert("it"@.len() != "pt-BR"@.len());
    assert("it"@.len() != "en-US"@.len());
    assert("it-IT"@.len() != "pt"@.len());
    assert("it-CH"@.len() != "pt"@.len());
    assert("pt"@.len() != "pt-PT"@.len());
    assert("pt"@.len() != "pt-BR"@.len());
    assert("pt"@.len() != "en-US"@.len());
}

/// Every supported tag gives its language: the bare codes fi, de, it, pt and
/// the regional tags fi-FI, de-DE, de-AT, de-CH, it-IT, it-CH, pt-PT, pt-BR;
/// en-US gives English.
pub proof fn lemma_supported_locales()
    ensures
        lang_for_locale("fi"@) == Lang::Fi,
        lang_for_locale("fi-FI"@) == Lang::Fi,
        lang_for_locale("de"@) == Lang::De,
        lang_for_locale("de-DE"@) == Lang::De,
        lang_for_locale("de-AT"@) == Lang::De,
        lang_for_locale("de-CH"@) == Lang::De,
        lang_for_locale("it"@) == Lang::It,
        lang_for_locale("it-IT"@) == Lang::It,
        lang_for_locale("it-CH"@) == Lang::It,
        lang_for_locale("pt"@) == Lang::Pt,
        lang_for_locale("pt-PT"@) == Lang::Pt,
        lang_for_locale("pt-BR"@) == Lang::Pt,
        lang_for_locale("en-US"@) == Lang::En,
{
    reveal_strlit("fi");
    reveal_strlit("fi-FI");
    reveal_strlit("de");
    reveal_strlit("de-DE");
    reveal_strlit("de-AT");
    reveal_strlit("de-CH");
    reveal_strlit("it");
    reveal_strlit("it-IT");
    reveal_strlit("it-CH");
    reveal_strlit("pt");
    reveal_strlit("pt-PT");
    reveal_strlit("pt-BR");
    reveal_strlit("en-US");
    lemma_tags_differ();
}

/// A tag gets a language other than English only if it starts with that
/// language's code, and a regional tag gets the same language as its bare
/// code.
pub proof fn lemma_locale_follows_code(locale: Seq<char>)
    ensures
        lang_for_locale(locale) != Lang::En ==> locale.len() >= 2 && locale.take(2) == lang_code(
            lang_for_locale(locale),
        ),
        lang_for_locale(locale) != Lang::En && locale.len() > 2 ==> lang_for_locale(locale.take(2))
            == lang_for_locale(locale),
{
    reveal_strlit("fi");
    reveal_strlit("fi-FI");
    reveal_strlit("de");
    reveal_strlit("de-DE");
    reveal_strlit("de-AT");
    reveal_strlit("de-CH");
    reveal_strlit("it");
    reveal_strlit("it-IT");
    reveal_strlit("it-CH");
    reveal_strlit("pt");
    reveal_strlit("pt-PT");
    reveal_strlit("pt-BR");
    reveal_strlit("en-US");
    lemma_tags_differ();
    if lang_for_locale(locale) != Lang::En {
        assert(locale.take(2) =~= lang_code(lang_for_locale(locale)));
        if locale.len() > 2 {
            assert(locale.take(2) =~= lang_code(lang_for_locale(locale)));
            let code = locale.take(2);
            if lang_for_locale(locale) == Lang::Fi {
                assert(code =~= "fi"@);
            } else if lang_for_locale(locale) == Lang::De {
                assert(code =~= "de"@);
            } else if lang_for_locale(locale) == Lang::It {
                assert(code =~= "it"@);
            } else {
                assert(code =~= "pt"@);
            }
        }
    }
}

/// The language for a locale tag (`None`: no locale known, read as "en-US").
pub fn lang_from_locale(locale: Option<String>) -> (lang: Lang)
    ensures
        lang == match locale {
            Some(l) => lang_for_locale(l@),
            None => lang_for_locale("en-US"@),
        },
{
    let locale = match locale {
        Some(l) => l,
        None => String::from_str("en-US"),
    };
    let l = locale.as_str();
    if text_eq(l, "fi") || text_eq(l, "fi-FI") {
        Lang::Fi
    } else if text_eq(l, "de") || text_eq(l, "de-DE") || text_eq(l, "de-AT") || text_eq(l, "de-CH") {
        Lang::De
    } else if text_eq(l, "it") || text_eq(l, "it-IT") || text_eq(l, "it-CH") {
        Lang::It
    } else if text_eq(l, "pt") || text_eq(l, "pt-PT") || text_eq(l, "pt-BR") {
        Lang::Pt
    } else {
        Lang::En
    }
}

/// Calls `sys_locale::get_locale`, which asks the operating system for the
/// user's preferred locale as a BCP 47 tag. What it returns depends on the
/// machine, so nothing is stated of the result.
#[verifier::external_body]
fn system_locale() -> (locale: Option<String>) {
    sys_locale::get_locale()
}

/// The language of the interface on this machine: `lang_from_locale` of
/// whatever locale the system reports (so English when none can be read).
pub fn system_lang() -> Lang {
    let locale = system_locale();
    lang_from_locale(locale)
}

} // verus!
