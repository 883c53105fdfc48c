use anime_games_launcher::i18n::{format_lang, supported_languages, I18n, LanguageId};
use anime_games_launcher::poller::{PollerControl, RefreshSlot, POLL_INTERVAL_MS};

fn lang(language: &str, region: Option<&str>) -> LanguageId {
    LanguageId {
        language: String::from(language),
        region: region.map(String::from),
    }
}

#[test]
fn launcher_starts_in_russian() {
    let i18n = I18n::new();
    assert_eq!(i18n.get_lang().language, "ru");
    assert_eq!(i18n.get_lang().region.as_deref(), Some("ru"));
}

#[test]
fn set_lang_accepts_supported_languages() {
    let mut i18n = I18n::new();
    assert!(i18n.set_lang(lang("en", Some("us"))).is_ok());
    assert_eq!(i18n.get_lang().language, "en");

    assert!(i18n.set_lang(lang("ru", Some("ru"))).is_ok());
    assert_eq!(i18n.get_lang().language, "ru");
}

#[test]
fn set_lang_rejects_unsupported_language_and_keeps_the_current_one() {
    let mut i18n = I18n::new();
    i18n.set_lang(lang("en", Some("us"))).unwrap();

    let r = i18n.set_lang(lang("de", Some("de")));
    match r {
        Err(e) => assert_eq!(e.lang.language, "de"),
        Ok(()) => panic!("an unregistered language must be rejected"),
    }
    // The current language stands.
    assert_eq!(i18n.get_lang().language, "en");
}

#[test]
fn default_lang_follows_the_system_locale() {
    let i18n = I18n::new();

    let picked = i18n.get_default_lang("en_us.utf-8");
    assert_eq!(picked.language, "en");
    assert_eq!(picked.region.as_deref(), Some("us"));

    let picked = i18n.get_default_lang("ru_ru");
    assert_eq!(picked.language, "ru");
    assert_eq!(picked.region.as_deref(), Some("ru"));
}

#[test]
fn default_lang_falls_back_to_the_current_language() {
    let mut i18n = I18n::new();
    i18n.set_lang(lang("en", Some("us"))).unwrap();

    let picked = i18n.get_default_lang("de_de.utf-8");
    assert_eq!(picked.language, "en");
    assert_eq!(picked.region.as_deref(), Some("us"));

    // The empty locale matches nothing either.
    let picked = i18n.get_default_lang("");
    assert_eq!(picked.language, "en");
}

#[test]
fn format_lang_writes_language_dash_region() {
    assert_eq!(format_lang(&lang("en", Some("us"))), "en-us");
    assert_eq!(format_lang(&lang("ru", Some("ru"))), "ru-ru");
    // Without a region the language code is doubled.
    assert_eq!(format_lang(&lang("de", None)), "de-de");
}

#[test]
fn supported_languages_lists_the_shipped_translations() {
    let langs = supported_languages();
    assert_eq!(langs.len(), 2);
    assert_eq!(langs[0].language, "en");
    assert_eq!(langs[0].region.as_deref(), Some("us"));
    assert_eq!(langs[1].language, "ru");
    assert_eq!(langs[1].region.as_deref(), Some("ru"));
}

#[test]
fn refresh_slot_coalesces_late_signals() {
    let mut slot = RefreshSlot::new();
    assert!(!slot.take());

    slot.offer();
    // However many times the poller fires before the owner drains the
    // slot, exactly one refresh waits.
    slot.offer();
    slot.offer();
    assert!(slot.take());
    assert!(!slot.take());
}

#[test]
fn poller_control_stops_the_ticker() {
    let mut control = PollerControl::new();
    assert!(control.should_continue());
    control.stop();
    assert!(!control.should_continue());
}

#[test]
fn poll_interval_is_a_quarter_second() {
    assert_eq!(POLL_INTERVAL_MS, 250);
}
