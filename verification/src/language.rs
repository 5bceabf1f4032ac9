use vstd::prelude::*;

verus! {

/// The complete set of user-visible strings for one language: a fixed record,
/// one instance per supported language code, with no partial translations.
#[derive(Debug, Clone)]
pub struct LanguageData {
    pub menu_title: String,
    pub start_game: String,
    pub options: String,
    pub quit: String,
    pub language: String,
    pub back: String,
    pub volume: String,
    pub graphics: String,
    pub controls: String,
    pub press_key: String,
}

impl LanguageData {
    /// Text of the field named by `key`; the sentinel "Unknown" for a key
    /// outside the fixed field set.
    pub open spec fn spec_field(&self, key: Seq<char>) -> Seq<char> {
        if key == "menu_title"@ {
            self.menu_title@
        } else if key == "start_game"@ {
            self.start_game@
        } else if key == "options"@ {
            self.options@
        } else if key == "quit"@ {
            self.quit@
        } else if key == "language"@ {
            self.language@
        } else if key == "back"@ {
            self.back@
        } else if key == "volume"@ {
            self.volume@
        } else if key == "graphics"@ {
            self.graphics@
        } else if key == "controls"@ {
            self.controls@
        } else if key == "press_key"@ {
            self.press_key@
        } else {
            "Unknown"@
        }
    }

    /// No field of a shipped record carries the sentinel text.
    pub open spec fn complete(&self) -> bool {
        &&& self.menu_title@ != "Unknown"@
        &&& self.start_game@ != "Unknown"@
        &&& self.options@ != "Unknown"@
        &&& self.quit@ != "Unknown"@
        &&& self.language@ != "Unknown"@
        &&& self.back@ != "Unknown"@
        &&& self.volume@ != "Unknown"@
        &&& self.graphics@ != "Unknown"@
        &&& self.controls@ != "Unknown"@
        &&& self.press_key@ != "Unknown"@
    }
}

/// The keys that name a field of `LanguageData`.
pub open spec fn is_field_key(key: Seq<char>) -> bool {
    ||| key == "menu_title"@
    ||| key == "start_game"@
    ||| key == "options"@
    ||| key == "quit"@
    ||| key == "language"@
    ||| key == "back"@
    ||| key == "volume"@
    ||| key == "graphics"@
    ||| key == "controls"@
    ||| key == "press_key"@
}

/// First record whose code equals `code`, searching front to back.
pub open spec fn spec_lookup(langs: Seq<(String, LanguageData)>, code: Seq<char>) -> Option<
    LanguageData,
>
    decreases langs.len(),
{
    if langs.len() == 0 {
        None
    } else if langs[0].0@ == code {
        Some(langs[0].1)
    } else {
        spec_lookup(langs.drop_first(), code)
    }
}

/// Maps each supported language code to its string record and remembers the
/// active code. The active code always names an existing record; an attempt
/// to activate an unknown code is rejected silently.
pub struct LanguageManager {
    pub current_language: String,
    pub languages: Vec<(String, LanguageData)>,
}

impl LanguageManager {
    /// `code` names a record of the store.
    pub open spec fn spec_is_known(&self, code: Seq<char>) -> bool {
        spec_lookup(self.languages@, code) is Some
    }

    /// The code currently governing all text lookups.
    pub open spec fn spec_active(&self) -> Seq<char> {
        self.current_language@
    }

    /// What `get_text` returns: the named field of the active record, or the
    /// sentinel "Unknown" when the key names no field (or, defensively, when
    /// the active record is absent).
    pub open spec fn spec_get_text(&self, key: Seq<char>) -> Seq<char> {
        match spec_lookup(self.languages@, self.spec_active()) {
            Some(d) => d.spec_field(key),
            None => "Unknown"@,
        }
    }

    /// Store invariant: the active code names an existing record, the two
    /// shipped codes are always available, and every record is complete
    /// (no field equal to the sentinel).
    pub open spec fn wf(&self) -> bool {
        &&& self.spec_is_known(self.spec_active())
        &&& self.spec_is_known("en"@)
        &&& self.spec_is_known("tr"@)
        &&& forall|i: int|
            0 <= i < self.languages@.len() ==> (#[trigger] self.languages@[i].1).complete()
    }
}

/// The active code after an attempted switch, as `set_language` establishes
/// it: the requested code when it is known, the previous active code
/// otherwise.
pub open spec fn spec_active_after_set(m: LanguageManager, code: Seq<char>) -> Seq<char> {
    if m.spec_is_known(code) {
        code
    } else {
        m.spec_active()
    }
}

/// Law: switching to a known code activates exactly that code, whatever was
/// active before; `get_current_language` then reports it.
pub proof fn lemma_known_switch_activates(m: LanguageManager, code: Seq<char>)
    requires
        m.spec_is_known(code),
    ensures
        spec_active_after_set(m, code) == code,
{
}

/// Law: an attempted switch to an unknown code leaves the active code
/// unchanged, whatever was active before.
pub proof fn lemma_unknown_switch_is_noop(m: LanguageManager, code: Seq<char>)
    requires
        !m.spec_is_known(code),
    ensures
        spec_active_after_set(m, code) == m.spec_active(),
{
}

/// Exact string equality, decided by comparing owned copies.
pub(crate) fn str_eq(a: &str, b: &str) -> (r: bool)
    ensures
        r == (a@ == b@),
{
    let x: String = a.to_owned();
    let y: String = b.to_owned();
    x == y
}

/// English and Turkish shipped records, characterized field by field.
pub open spec fn is_english(d: LanguageData) -> bool {
    &&& d.menu_title@ == "MAIN MENU"@
    &&& d.start_game@ == "🎮 Start Game"@
    &&& d.options@ == "⚙️ Options"@
    &&& d.quit@ == "🚪 Quit"@
    &&& d.language@ == "🌍 Language"@
    &&& d.back@ == "⬅️ Back"@
    &&& d.volume@ == "🔊 Volume Settings"@
    &&& d.graphics@ == "🎨 Graphics Settings"@
    &&& d.controls@ == "🎮 Control Settings"@
    &&& d.press_key@ == "Press any key..."@
}

pub open spec fn is_turkish(d: LanguageData) -> bool {
    &&& d.menu_title@ == "ANA MENÜ"@
    &&& d.start_game@ == "🎮 Oyunu Başlat"@
    &&& d.options@ == "⚙️ Ayarlar"@
    &&& d.quit@ == "🚪 Çıkış"@
    &&& d.language@ == "🌍 Dil"@
    &&& d.back@ == "⬅️ Geri"@
    &&& d.volume@ == "🔊 Ses Ayarları"@
    &&& d.graphics@ == "🎨 Grafik Ayarları"@
    &&& d.controls@ == "🎮 Kontrol Ayarları"@
    &&& d.press_key@ == "Herhangi bir tuşa basın..."@
}

impl LanguageManager {
    /// Build the store with its two shipped languages, English active.
    pub fn new() -> (m: LanguageManager)
        ensures
            m.wf(),
            m.spec_active() == "en"@,
            m.languages@.len() == 2,
            spec_lookup(m.languages@, "en"@) matches Some(d) && is_english(d),
            spec_lookup(m.languages@, "tr"@) matches Some(d) && is_turkish(d),
            forall|c: Seq<char>| m.spec_is_known(c) ==> (c == "en"@ || c == "tr"@),
    {
        let english = LanguageData {
            menu_title: "MAIN MENU".to_owned(),
            start_game: "🎮 Start Game".to_owned(),
            options: "⚙️ Options".to_owned(),
            quit: "🚪 Quit".to_owned(),
            language: "🌍 Language".to_owned(),
            back: "⬅️ Back".to_owned(),
            volume: "🔊 Volume Settings".to_owned(),
            graphics: "🎨 Graphics Settings".to_owned(),
            controls: "🎮 Control Settings".to_owned(),
            press_key: "Press any key...".to_owned(),
        };
        let turkish = LanguageData {
            menu_title: "ANA MENÜ".to_owned(),
            start_game: "🎮 Oyunu Başlat".to_owned(),
            options: "⚙️ Ayarlar".to_owned(),
            quit: "🚪 Çıkış".to_owned(),
            language: "🌍 Dil".to_owned(),
            back: "⬅️ Geri".to_owned(),
            volume: "🔊 Ses Ayarları".to_owned(),
            graphics: "🎨 Grafik Ayarları".to_owned(),
            controls: "🎮 Kontrol Ayarları".to_owned(),
            press_key: "Herhangi bir tuşa basın...".to_owned(),
        };
        let mut languages: Vec<(String, LanguageData)> = Vec::new();
        languages.push(("en".to_owned(), english));
        languages.push(("tr".to_owned(), turkish));
        let m = LanguageManager { current_language: "en".to_owned(), languages };
        proof {
            reveal_strlit("en");
            reveal_strlit("tr");
            lemma_shipped_texts_not_sentinel();
            let s = m.languages@;
            assert("en"@[0] != "tr"@[0]);
            assert("en"@ != "tr"@);
            assert(s.drop_first() =~= seq![s[1]]);
            assert(spec_lookup(seq![s[1]], "tr"@) == Some(s[1].1));
            assert(spec_lookup(s, "tr"@) == spec_lookup(s.drop_first(), "tr"@));
            assert(seq![s[1]].drop_first() =~= Seq::<(String, LanguageData)>::empty());
            assert forall|c: Seq<char>| m.spec_is_known(c) implies (c == "en"@ || c == "tr"@) by {
                if c != "en"@ && c != "tr"@ {
                    assert(seq![s[1]].drop_first() =~= Seq::<(String, LanguageData)>::empty());
                    assert(spec_lookup(Seq::<(String, LanguageData)>::empty(), c) is None);
                    assert(spec_lookup(seq![s[1]], c) is None);
                    assert(spec_lookup(s, c) == spec_lookup(s.drop_first(), c));
                }
            }
        }
        m
    }

    /// If `language` names a record of the store it becomes the active code;
    /// otherwise nothing changes (deliberate silent-ignore policy).
    pub fn set_language(&mut self, language: &str)
        ensures
            final (self).languages == old(self).languages,
            final (self).spec_active() == spec_active_after_set(*old(self), language@),
            !old(self).spec_is_known(language@) ==> final (self).current_language == old(
                self,
            ).current_language,
            old(self).wf() ==> final (self).wf(),
    {
        if self.contains_language(language) {
            self.current_language = language.to_owned();
        }
    }

    /// Whether `code` names a record of the store.
    pub fn contains_language(&self, code: &str) -> (b: bool)
        ensures
            b == self.spec_is_known(code@),
    {
        let n = self.languages.len();
        let mut i: usize = 0;
        proof {
            assert(self.languages@.skip(0) =~= self.languages@);
        }
        while i < n
            invariant
                i <= n,
                n == self.languages@.len(),
                spec_lookup(self.languages@, code@) == spec_lookup(
                    self.languages@.skip(i as int),
                    code@,
                ),
            decreases n - i,
        {
            let hit = str_eq(self.languages[i].0.as_str(), code);
            proof {
                assert(self.languages@.skip(i as int)[0] == self.languages@[i as int]);
                assert(self.languages@.skip(i as int).drop_first() =~= self.languages@.skip(
                    i as int + 1,
                ));
            }
            if hit {
                return true;
            }
            i += 1;
        }
        proof {
            assert(self.languages@.skip(n as int) =~= Seq::<(String, LanguageData)>::empty());
        }
        false
    }

    /// The active language code.
    pub fn get_current_language(&self) -> (r: &str)
        ensures
            r@ == self.spec_active(),
    {
        self.current_language.as_str()
    }

    /// Text lookup by key in the active record; "Unknown" for a key outside
    /// the fixed field set or (defensively) a missing active record.
    pub fn get_text(&self, key: &str) -> (r: &str)
        ensures
            r@ == self.spec_get_text(key@),
    {
        match self.get_language_data() {
            Some(lang_data) => {
                if str_eq(key, "menu_title") {
                    lang_data.menu_title.as_str()
                } else if str_eq(key, "start_game") {
                    lang_data.start_game.as_str()
                } else if str_eq(key, "options") {
                    lang_data.options.as_str()
                } else if str_eq(key, "quit") {
                    lang_data.quit.as_str()
                } else if str_eq(key, "language") {
                    lang_data.language.as_str()
                } else if str_eq(key, "back") {
                    lang_data.back.as_str()
                } else if str_eq(key, "volume") {
                    lang_data.volume.as_str()
                } else if str_eq(key, "graphics") {
                    lang_data.graphics.as_str()
                } else if str_eq(key, "controls") {
                    lang_data.controls.as_str()
                } else if str_eq(key, "press_key") {
                    lang_data.press_key.as_str()
                } else {
                    "Unknown"
                }
            },
            None => "Unknown",
        }
    }

    /// The full record for the active language, if present (always present
    /// under the store invariant).
    pub fn get_language_data(&self) -> (r: Option<&LanguageData>)
        ensures
            match r {
                Some(d) => spec_lookup(self.languages@, self.spec_active()) == Some(*d),
                None => spec_lookup(self.languages@, self.spec_active()) is None,
            },
    {
        let n = self.languages.len();
        let mut i: usize = 0;
        proof {
            assert(self.languages@.skip(0) =~= self.languages@);
        }
        while i < n
            invariant
                i <= n,
                n == self.languages@.len(),
                spec_lookup(self.languages@, self.current_language@) == spec_lookup(
                    self.languages@.skip(i as int),
                    self.current_language@,
                ),
            decreases n - i,
        {
            let hit = str_eq(self.languages[i].0.as_str(), self.current_language.as_str());
            proof {
                assert(self.languages@.skip(i as int)[0] == self.languages@[i as int]);
                assert(self.languages@.skip(i as int).drop_first() =~= self.languages@.skip(
                    i as int + 1,
                ));
            }
            if hit {
                return Some(&self.languages[i].1);
            }
            i += 1;
        }
        proof {
            assert(self.languages@.skip(n as int) =~= Seq::<(String, LanguageData)>::empty());
        }
        None
    }
}

/// None of the twenty shipped strings equals the sentinel "Unknown".
proof fn lemma_shipped_texts_not_sentinel()
    ensures
        "MAIN MENU"@ != "Unknown"@,
        "🎮 Start Game"@ != "Unknown"@,
        "⚙️ Options"@ != "Unknown"@,
        "🚪 Quit"@ != "Unknown"@,
        "🌍 Language"@ != "Unknown"@,
        "⬅️ Back"@ != "Unknown"@,
        "🔊 Volume Settings"@ != "Unknown"@,
        "🎨 Graphics Settings"@ != "Unknown"@,
        "🎮 Control Settings"@ != "Unknown"@,
        "Press any key..."@ != "Unknown"@,
        "ANA MENÜ"@ != "Unknown"@,
        "🎮 Oyunu Başlat"@ != "Unknown"@,
        "⚙️ Ayarlar"@ != "Unknown"@,
        "🚪 Çıkış"@ != "Unknown"@,
        "🌍 Dil"@ != "Unknown"@,
        "⬅️ Geri"@ != "Unknown"@,
        "🔊 Ses Ayarları"@ != "Unknown"@,
        "🎨 Grafik Ayarları"@ != "Unknown"@,
        "🎮 Kontrol Ayarları"@ != "Unknown"@,
        "Herhangi bir tuşa basın..."@ != "Unknown"@,
{
    reveal_strlit("Unknown");
    reveal_strlit("MAIN MENU");
    reveal_strlit("🎮 Start Game");
    reveal_strlit("⚙️ Options");
    reveal_strlit("🚪 Quit");
    reveal_strlit("🌍 Language");
    reveal_strlit("⬅️ Back");
    reveal_strlit("🔊 Volume Settings");
    reveal_strlit("🎨 Graphics Settings");
    reveal_strlit("🎮 Control Settings");
    reveal_strlit("Press any key...");
    reveal_strlit("ANA MENÜ");
    reveal_strlit("🎮 Oyunu Başlat");
    reveal_strlit("⚙️ Ayarlar");
    reveal_strlit("🚪 Çıkış");
    reveal_strlit("🌍 Dil");
    reveal_strlit("⬅️ Geri");
    reveal_strlit("🔊 Ses Ayarları");
    reveal_strlit("🎨 Grafik Ayarları");
    reveal_strlit("🎮 Kontrol Ayarları");
    reveal_strlit("Herhangi bir tuşa basın...");
    assert("MAIN MENU"@[0] != "Unknown"@[0]);
    assert("🎮 Start Game"@[0] != "Unknown"@[0]);
    assert("⚙️ Options"@[0] != "Unknown"@[0]);
    assert("🚪 Quit"@[0] != "Unknown"@[0]);
    assert("🌍 Language"@[0] != "Unknown"@[0]);
    assert("⬅️ Back"@[0] != "Unknown"@[0]);
    assert("🔊 Volume Settings"@[0] != "Unknown"@[0]);
    assert("🎨 Graphics Settings"@[0] != "Unknown"@[0]);
    assert("🎮 Control Settings"@[0] != "Unknown"@[0]);
    assert("Press any key..."@[0] != "Unknown"@[0]);
    assert("ANA MENÜ"@[0] != "Unknown"@[0]);
    assert("🎮 Oyunu Başlat"@[0] != "Unknown"@[0]);
    assert("⚙️ Ayarlar"@[0] != "Unknown"@[0]);
    assert("🚪 Çıkış"@[0] != "Unknown"@[0]);
    assert("🌍 Dil"@[0] != "Unknown"@[0]);
    assert("⬅️ Geri"@[0] != "Unknown"@[0]);
    assert("🔊 Ses Ayarları"@[0] != "Unknown"@[0]);
    assert("🎨 Grafik Ayarları"@[0] != "Unknown"@[0]);
    assert("🎮 Kontrol Ayarları"@[0] != "Unknown"@[0]);
    assert("Herhangi bir tuşa basın..."@[0] != "Unknown"@[0]);
}

/// A successful lookup returns one of the store's records.
proof fn lemma_lookup_in_entries(langs: Seq<(String, LanguageData)>, code: Seq<char>)
    requires
        spec_lookup(langs, code) is Some,
    ensures
        exists|i: int|
            0 <= i < langs.len() && (#[trigger] langs[i]).1 == spec_lookup(langs, code).unwrap(),
    decreases langs.len(),
{
    if langs[0].0@ == code {
        assert(0 <= 0 < langs.len() && langs[0].1 == spec_lookup(langs, code).unwrap());
    } else {
        lemma_lookup_in_entries(langs.drop_first(), code);
        let j = choose|j: int|
            0 <= j < langs.drop_first().len() && (#[trigger] langs.drop_first()[j]).1
                == spec_lookup(langs.drop_first(), code).unwrap();
        assert(langs[j + 1] == langs.drop_first()[j]);
    }
}

/// Law: with a well-formed store, every key of the fixed field set yields
/// real text, never the sentinel "Unknown"; every key outside that set
/// yields exactly "Unknown".
pub proof fn lemma_get_text_sentinel(m: LanguageManager, key: Seq<char>)
    requires
        m.wf(),
    ensures
        is_field_key(key) ==> m.spec_get_text(key) != "Unknown"@,
        !is_field_key(key) ==> m.spec_get_text(key) == "Unknown"@,
{
    lemma_lookup_in_entries(m.languages@, m.spec_active());
}

} // verus!
