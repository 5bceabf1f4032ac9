use game_menu::language::LanguageManager;

#[test]
fn starts_in_english() {
    let m = LanguageManager::new();
    assert_eq!(m.get_current_language(), "en");
    assert_eq!(m.get_text("menu_title"), "MAIN MENU");
}

#[test]
fn set_known_language_activates_it() {
    let mut m = LanguageManager::new();
    m.set_language("tr");
    assert_eq!(m.get_current_language(), "tr");
    m.set_language("en");
    assert_eq!(m.get_current_language(), "en");
}

#[test]
fn set_unknown_language_is_silent_noop() {
    let mut m = LanguageManager::new();
    m.set_language("de");
    assert_eq!(m.get_current_language(), "en");
    m.set_language("tr");
    m.set_language("fr");
    assert_eq!(m.get_current_language(), "tr");
    m.set_language("");
    assert_eq!(m.get_current_language(), "tr");
}

#[test]
fn known_keys_never_yield_sentinel() {
    let keys = [
        "menu_title",
        "start_game",
        "options",
        "quit",
        "language",
        "back",
        "volume",
        "graphics",
        "controls",
        "press_key",
    ];
    let mut m = LanguageManager::new();
    for code in ["en", "tr"] {
        m.set_language(code);
        for key in keys {
            assert_ne!(m.get_text(key), "Unknown", "{code}/{key}");
        }
    }
}

#[test]
fn unknown_keys_yield_sentinel() {
    let m = LanguageManager::new();
    assert_eq!(m.get_text("title"), "Unknown");
    assert_eq!(m.get_text(""), "Unknown");
    assert_eq!(m.get_text("MENU_TITLE"), "Unknown");
}

#[test]
fn get_language_data_matches_active_language() {
    let mut m = LanguageManager::new();
    let data = m.get_language_data().expect("active record must exist");
    assert_eq!(data.menu_title, "MAIN MENU");
    assert_eq!(data.quit, "🚪 Quit");
    m.set_language("tr");
    let data = m.get_language_data().expect("active record must exist");
    assert_eq!(data.menu_title, "ANA MENÜ");
    assert_eq!(data.press_key, "Herhangi bir tuşa basın...");
}

#[test]
fn turkish_texts_are_complete() {
    let mut m = LanguageManager::new();
    m.set_language("tr");
    assert_eq!(m.get_text("start_game"), "🎮 Oyunu Başlat");
    assert_eq!(m.get_text("options"), "⚙️ Ayarlar");
    assert_eq!(m.get_text("back"), "⬅️ Geri");
    assert_eq!(m.get_text("volume"), "🔊 Ses Ayarları");
}
