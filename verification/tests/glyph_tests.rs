use game_menu::animation::fade_permille;
use game_menu::glyph::{glyph_pattern, layout_text};
use game_menu::language::LanguageManager;

const PLACEHOLDER: [(u32, u32); 1] = [(1, 2)];

#[test]
fn letter_t_has_its_block_pattern() {
    let cells = glyph_pattern('T');
    assert_eq!(cells, vec![(0, 0), (1, 0), (2, 0), (1, 1), (1, 2), (1, 3), (1, 4)]);
}

#[test]
fn lookup_is_case_insensitive() {
    for (upper, lower) in [('S', 's'), ('T', 't'), ('Z', 'z'), ('Ş', 'ş'), ('İ', 'ı'), ('Ü', 'ü')]
    {
        assert_eq!(glyph_pattern(upper), glyph_pattern(lower), "{upper} vs {lower}");
    }
}

#[test]
fn space_is_the_empty_glyph() {
    assert!(glyph_pattern(' ').is_empty());
}

#[test]
fn unmapped_characters_fall_back_to_placeholder() {
    for c in ['.', '!', '7', 'W', 'w', 'J', 'x', '🎮', '️'] {
        assert_eq!(glyph_pattern(c), PLACEHOLDER.to_vec(), "{c:?}");
    }
}

#[test]
fn all_cells_stay_on_the_grid() {
    for c in "ABCDEFGHIJKLMNOPQRSTUVWXYZ abcdefghijklmnopqrstuvwxyz ŞĞÇÖÜİışğçöü .!?".chars() {
        for (col, row) in glyph_pattern(c) {
            assert!(col <= 2 && row <= 4, "{c}: ({col},{row})");
        }
    }
}

#[test]
fn shipped_texts_use_only_mapped_letters() {
    // Every character of every shipped string either has a pattern of its own
    // (all letters do) or deliberately falls back: space to the empty glyph,
    // decoration (emoji, punctuation, variation selectors) to the placeholder.
    let mut m = LanguageManager::new();
    for code in ["en", "tr"] {
        m.set_language(code);
        let d = m.get_language_data().expect("active record must exist").clone();
        let fields = [
            d.menu_title,
            d.start_game,
            d.options,
            d.quit,
            d.language,
            d.back,
            d.volume,
            d.graphics,
            d.controls,
            d.press_key,
        ];
        for text in fields {
            for c in text.chars() {
                let cells = glyph_pattern(c);
                if c.is_alphabetic() {
                    assert!(
                        cells.len() >= 5 && cells != PLACEHOLDER.to_vec(),
                        "letter {c:?} in {text:?} lacks a glyph of its own"
                    );
                } else if c == ' ' {
                    assert!(cells.is_empty());
                } else {
                    assert_eq!(cells, PLACEHOLDER.to_vec(), "decoration {c:?} in {text:?}");
                }
            }
        }
    }
}

#[test]
fn layout_places_cells_at_fixed_pitches() {
    // One character: each filled cell sits at origin + cell * 3.
    let cmds = layout_text("T", 10, 20);
    assert_eq!(cmds, vec![(10, 20), (13, 20), (16, 20), (13, 23), (13, 26), (13, 29), (13, 32)]);
    // The second character advances 12 units along x, independent of width.
    let cmds = layout_text("LL", 0, 0);
    let first: Vec<(i64, i64)> = cmds[..7].to_vec();
    let second: Vec<(i64, i64)> = cmds[7..].iter().map(|&(x, y)| (x - 12, y)).collect();
    assert_eq!(first, second);
}

#[test]
fn layout_skips_spaces_and_keeps_advancing() {
    let with_space = layout_text("T T", 0, 0);
    let lone = layout_text("T", 0, 0);
    assert_eq!(with_space.len(), 2 * lone.len());
    let shifted: Vec<(i64, i64)> = with_space[lone.len()..]
        .iter()
        .map(|&(x, y)| (x - 24, y))
        .collect();
    assert_eq!(shifted, lone);
}

#[test]
fn layout_of_empty_text_is_empty() {
    assert!(layout_text("", 100, 100).is_empty());
}

#[test]
fn fade_ramps_linearly_and_clamps() {
    assert_eq!(fade_permille(0), 0);
    assert_eq!(fade_permille(100), 200);
    assert_eq!(fade_permille(250), 500);
    assert_eq!(fade_permille(499), 998);
    assert_eq!(fade_permille(500), 1000);
    assert_eq!(fade_permille(10_000), 1000);
    assert_eq!(fade_permille(u64::MAX), 1000);
}
