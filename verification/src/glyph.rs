use vstd::prelude::*;
use vstd::string::StrSliceExecFns;

verus! {

/// Canonical form of a character for glyph lookup: upper and lower case of a
/// supported letter share one pattern, so lookup folds to the upper-case form.
pub open spec fn glyph_upper(c: char) -> char {
    if c == 's' {
        'S'
    } else
    if c == 't' {
        'T'
    } else
    if c == 'a' {
        'A'
    } else
    if c == 'r' {
        'R'
    } else
    if c == 'o' {
        'O'
    } else
    if c == 'p' {
        'P'
    } else
    if c == 'q' {
        'Q'
    } else
    if c == 'u' {
        'U'
    } else
    if c == 'i' {
        'I'
    } else
    if c == 'e' {
        'E'
    } else
    if c == 'n' {
        'N'
    } else
    if c == 'g' {
        'G'
    } else
    if c == 'm' {
        'M'
    } else
    if c == 'l' {
        'L'
    } else
    if c == 'c' {
        'C'
    } else
    if c == 'k' {
        'K'
    } else
    if c == 'v' {
        'V'
    } else
    if c == 'b' {
        'B'
    } else
    if c == 'y' {
        'Y'
    } else
    if c == 'f' {
        'F'
    } else
    if c == 'd' {
        'D'
    } else
    if c == 'h' {
        'H'
    } else
    if c == 'z' {
        'Z'
    } else
    if c == 'ş' {
        'Ş'
    } else
    if c == 'ğ' {
        'Ğ'
    } else
    if c == 'ç' {
        'Ç'
    } else
    if c == 'ö' {
        'Ö'
    } else
    if c == 'ü' {
        'Ü'
    } else
    if c == 'ı' {
        'İ'
    } else {
        c
    }
}

/// Filled cells of the canonical character's 3-wide-by-5-tall block glyph:
/// (column, row) pairs with column in 0..3 and row in 0..5. Space is the
/// empty glyph; a character without a pattern of its own gets the single
/// center-cell placeholder.
pub open spec fn glyph_rows(c: char) -> Seq<(u32, u32)> {
    if c == 'S' {
        seq![(0,0), (1,0), (2,0), (0,1), (1,2), (2,2), (2,3), (0,4), (1,4), (2,4)]
    } else
    if c == 'T' {
        seq![(0,0), (1,0), (2,0), (1,1), (1,2), (1,3), (1,4)]
    } else
    if c == 'A' {
        seq![(1,0), (0,1), (2,1), (0,2), (1,2), (2,2), (0,3), (2,3), (0,4), (2,4)]
    } else
    if c == 'R' {
        seq![(0,0), (1,0), (0,1), (2,1), (0,2), (1,2), (0,3), (2,3), (0,4), (2,4)]
    } else
    if c == 'O' {
        seq![(1,0), (0,1), (2,1), (0,2), (2,2), (0,3), (2,3), (1,4)]
    } else
    if c == 'P' {
        seq![(0,0), (1,0), (0,1), (2,1), (0,2), (1,2), (0,3), (0,4)]
    } else
    if c == 'Q' {
        seq![(0,0), (1,0), (2,0), (0,1), (2,1), (0,2), (2,2), (0,3), (1,3), (2,3)]
    } else
    if c == 'U' {
        seq![(0,0), (2,0), (0,1), (2,1), (0,2), (2,2), (0,3), (2,3), (1,4)]
    } else
    if c == 'I' {
        seq![(0,0), (1,0), (2,0), (1,1), (1,2), (1,3), (0,4), (1,4), (2,4)]
    } else
    if c == 'E' {
        seq![(0,0), (1,0), (2,0), (0,1), (0,2), (1,2), (0,3), (0,4), (1,4), (2,4)]
    } else
    if c == 'N' {
        seq![(0,0), (2,0), (0,1), (1,1), (2,1), (0,2), (2,2), (0,3), (2,3), (0,4), (2,4)]
    } else
    if c == 'G' {
        seq![(1,0), (2,0), (0,1), (0,2), (1,2), (2,2), (0,3), (2,3), (1,4), (2,4)]
    } else
    if c == 'M' {
        seq![(0,0), (2,0), (0,1), (1,1), (2,1), (0,2), (2,2), (0,3), (2,3), (0,4), (2,4)]
    } else
    if c == 'L' {
        seq![(0,0), (0,1), (0,2), (0,3), (0,4), (1,4), (2,4)]
    } else
    if c == 'C' {
        seq![(1,0), (2,0), (0,1), (0,2), (0,3), (1,4), (2,4)]
    } else
    if c == 'K' {
        seq![(0,0), (2,0), (0,1), (1,1), (0,2), (0,3), (1,3), (0,4), (2,4)]
    } else
    if c == 'V' {
        seq![(0,0), (2,0), (0,1), (2,1), (0,2), (2,2), (1,3), (1,4)]
    } else
    if c == 'B' {
        seq![(0,0), (1,0), (0,1), (2,1), (0,2), (1,2), (0,3), (2,3), (0,4), (1,4)]
    } else
    if c == 'Y' {
        seq![(0,0), (2,0), (0,1), (2,1), (1,2), (1,3), (1,4)]
    } else
    if c == 'F' {
        seq![(0,0), (1,0), (2,0), (0,1), (0,2), (1,2), (0,3), (0,4)]
    } else
    if c == 'D' {
        seq![(0,0), (1,0), (0,1), (2,1), (0,2), (2,2), (0,3), (2,3), (0,4), (1,4)]
    } else
    if c == 'H' {
        seq![(0,0), (2,0), (0,1), (2,1), (0,2), (1,2), (2,2), (0,3), (2,3), (0,4), (2,4)]
    } else
    if c == 'Z' {
        seq![(0,0), (1,0), (2,0), (2,1), (1,2), (0,3), (0,4), (1,4), (2,4)]
    } else
    if c == 'Ş' {
        seq![(1,0), (2,0), (0,1), (1,2), (2,2), (2,3), (0,4), (1,4), (2,4)]
    } else
    if c == 'Ğ' {
        seq![(1,0), (2,0), (0,1), (0,2), (1,2), (2,2), (0,3), (2,3), (1,4), (2,4)]
    } else
    if c == 'Ç' {
        seq![(1,0), (2,0), (0,1), (0,2), (0,3), (1,4), (2,4)]
    } else
    if c == 'Ö' {
        seq![(1,0), (0,1), (2,1), (0,2), (2,2), (0,3), (2,3), (1,4)]
    } else
    if c == 'Ü' {
        seq![(0,0), (2,0), (0,1), (2,1), (0,2), (2,2), (0,3), (2,3), (1,4)]
    } else
    if c == 'İ' {
        seq![(1,0), (1,1), (1,2), (1,3), (1,4)]
    } else
    if c == ' ' {
        Seq::empty()
    } else {
        seq![(1, 2)]
    }
}

/// The glyph pattern of any character: case-folded table lookup.
pub open spec fn spec_glyph(c: char) -> Seq<(u32, u32)> {
    glyph_rows(glyph_upper(c))
}

/// `c` has a pattern of its own in the table (it is one of the supported
/// letters, in either case); every other character except space falls back
/// to the placeholder deliberately.
pub open spec fn has_own_glyph(c: char) -> bool {
    ||| c == 'S'
    ||| c == 's'
    ||| c == 'T'
    ||| c == 't'
    ||| c == 'A'
    ||| c == 'a'
    ||| c == 'R'
    ||| c == 'r'
    ||| c == 'O'
    ||| c == 'o'
    ||| c == 'P'
    ||| c == 'p'
    ||| c == 'Q'
    ||| c == 'q'
    ||| c == 'U'
    ||| c == 'u'
    ||| c == 'I'
    ||| c == 'i'
    ||| c == 'E'
    ||| c == 'e'
    ||| c == 'N'
    ||| c == 'n'
    ||| c == 'G'
    ||| c == 'g'
    ||| c == 'M'
    ||| c == 'm'
    ||| c == 'L'
    ||| c == 'l'
    ||| c == 'C'
    ||| c == 'c'
    ||| c == 'K'
    ||| c == 'k'
    ||| c == 'V'
    ||| c == 'v'
    ||| c == 'B'
    ||| c == 'b'
    ||| c == 'Y'
    ||| c == 'y'
    ||| c == 'F'
    ||| c == 'f'
    ||| c == 'D'
    ||| c == 'd'
    ||| c == 'H'
    ||| c == 'h'
    ||| c == 'Z'
    ||| c == 'z'
    ||| c == 'Ş'
    ||| c == 'ş'
    ||| c == 'Ğ'
    ||| c == 'ğ'
    ||| c == 'Ç'
    ||| c == 'ç'
    ||| c == 'Ö'
    ||| c == 'ö'
    ||| c == 'Ü'
    ||| c == 'ü'
    ||| c == 'İ'
    ||| c == 'ı'
}

/// Look up the filled cells for one character.
pub fn glyph_pattern(c: char) -> (cells: Vec<(u32, u32)>)
    ensures
        cells@ =~= spec_glyph(c),
{
    match c {
        'S' | 's' => vec![(0,0), (1,0), (2,0), (0,1), (1,2), (2,2), (2,3), (0,4), (1,4), (2,4)],
        'T' | 't' => vec![(0,0), (1,0), (2,0), (1,1), (1,2), (1,3), (1,4)],
        'A' | 'a' => vec![(1,0), (0,1), (2,1), (0,2), (1,2), (2,2), (0,3), (2,3), (0,4), (2,4)],
        'R' | 'r' => vec![(0,0), (1,0), (0,1), (2,1), (0,2), (1,2), (0,3), (2,3), (0,4), (2,4)],
        'O' | 'o' => vec![(1,0), (0,1), (2,1), (0,2), (2,2), (0,3), (2,3), (1,4)],
        'P' | 'p' => vec![(0,0), (1,0), (0,1), (2,1), (0,2), (1,2), (0,3), (0,4)],
        'Q' | 'q' => vec![(0,0), (1,0), (2,0), (0,1), (2,1), (0,2), (2,2), (0,3), (1,3), (2,3)],
        'U' | 'u' => vec![(0,0), (2,0), (0,1), (2,1), (0,2), (2,2), (0,3), (2,3), (1,4)],
        'I' | 'i' => vec![(0,0), (1,0), (2,0), (1,1), (1,2), (1,3), (0,4), (1,4), (2,4)],
        'E' | 'e' => vec![(0,0), (1,0), (2,0), (0,1), (0,2), (1,2), (0,3), (0,4), (1,4), (2,4)],
        'N' | 'n' => vec![(0,0), (2,0), (0,1), (1,1), (2,1), (0,2), (2,2), (0,3), (2,3), (0,4), (2,4)],
        'G' | 'g' => vec![(1,0), (2,0), (0,1), (0,2), (1,2), (2,2), (0,3), (2,3), (1,4), (2,4)],
        'M' | 'm' => vec![(0,0), (2,0), (0,1), (1,1), (2,1), (0,2), (2,2), (0,3), (2,3), (0,4), (2,4)],
        'L' | 'l' => vec![(0,0), (0,1), (0,2), (0,3), (0,4), (1,4), (2,4)],
        'C' | 'c' => vec![(1,0), (2,0), (0,1), (0,2), (0,3), (1,4), (2,4)],
        'K' | 'k' => vec![(0,0), (2,0), (0,1), (1,1), (0,2), (0,3), (1,3), (0,4), (2,4)],
        'V' | 'v' => vec![(0,0), (2,0), (0,1), (2,1), (0,2), (2,2), (1,3), (1,4)],
        'B' | 'b' => vec![(0,0), (1,0), (0,1), (2,1), (0,2), (1,2), (0,3), (2,3), (0,4), (1,4)],
        'Y' | 'y' => vec![(0,0), (2,0), (0,1), (2,1), (1,2), (1,3), (1,4)],
        'F' | 'f' => vec![(0,0), (1,0), (2,0), (0,1), (0,2), (1,2), (0,3), (0,4)],
        'D' | 'd' => vec![(0,0), (1,0), (0,1), (2,1), (0,2), (2,2), (0,3), (2,3), (0,4), (1,4)],
        'H' | 'h' => vec![(0,0), (2,0), (0,1), (2,1), (0,2), (1,2), (2,2), (0,3), (2,3), (0,4), (2,4)],
        'Z' | 'z' => vec![(0,0), (1,0), (2,0), (2,1), (1,2), (0,3), (0,4), (1,4), (2,4)],
        'Ş' | 'ş' => vec![(1,0), (2,0), (0,1), (1,2), (2,2), (2,3), (0,4), (1,4), (2,4)],
        'Ğ' | 'ğ' => vec![(1,0), (2,0), (0,1), (0,2), (1,2), (2,2), (0,3), (2,3), (1,4), (2,4)],
        'Ç' | 'ç' => vec![(1,0), (2,0), (0,1), (0,2), (0,3), (1,4), (2,4)],
        'Ö' | 'ö' => vec![(1,0), (0,1), (2,1), (0,2), (2,2), (0,3), (2,3), (1,4)],
        'Ü' | 'ü' => vec![(0,0), (2,0), (0,1), (2,1), (0,2), (2,2), (0,3), (2,3), (1,4)],
        'İ' | 'ı' => vec![(1,0), (1,1), (1,2), (1,3), (1,4)],
        ' ' => vec![],
        _ => vec![(1, 2)],
    }
}

/// Law: glyph lookup is case-insensitive — a character and its canonical
/// (upper-case) form always share one pattern.
pub proof fn lemma_glyph_case_insensitive(c: char)
    ensures
        spec_glyph(glyph_upper(c)) == spec_glyph(c),
{
}

/// Law: every filled cell of every glyph lies on the 3-wide-by-5-tall grid.
pub proof fn lemma_glyph_cells_in_grid(c: char)
    ensures
        forall|k: int|
            0 <= k < spec_glyph(c).len() ==> (#[trigger] spec_glyph(c)[k]).0 <= 2 && spec_glyph(
                c,
            )[k].1 <= 4,
{
}

/// Law: space is the one deliberately empty glyph; a supported letter has a
/// pattern of at least five cells; anything else falls back to the single
/// center-cell placeholder (never an empty draw).
pub proof fn lemma_glyph_fallback(c: char)
    ensures
        c == ' ' ==> spec_glyph(c).len() == 0,
        has_own_glyph(c) ==> spec_glyph(c).len() >= 5,
        !has_own_glyph(c) && c != ' ' ==> spec_glyph(c) =~= seq![(1u32, 2u32)],
{
}

/// Offsets of one character's filled cells within a laid-out string: the
/// character at position `idx` advances 12 units along the x axis, and each
/// filled cell is 3 units apart within the block.
pub open spec fn spec_char_cells(c: char, idx: int) -> Seq<(int, int)> {
    spec_glyph(c).map_values(
        |cell: (u32, u32)| (12 * idx + 3 * (cell.0 as int), 3 * (cell.1 as int)),
    )
}

/// Positions, relative to the text origin, of every filled cell of `s`: in
/// character order, each character's cells in table order.
pub open spec fn spec_text_layout(s: Seq<char>) -> Seq<(int, int)>
    decreases s.len(),
{
    if s.len() == 0 {
        Seq::empty()
    } else {
        spec_text_layout(s.drop_last()) + spec_char_cells(s.last(), s.len() - 1)
    }
}

/// Laying out one more character appends exactly that character's cells.
proof fn lemma_layout_step(s: Seq<char>, i: int)
    requires
        0 <= i < s.len(),
    ensures
        spec_text_layout(s.subrange(0, i + 1)) == spec_text_layout(s.subrange(0, i))
            + spec_char_cells(s[i], i),
{
    let t = s.subrange(0, i + 1);
    assert(t.drop_last() =~= s.subrange(0, i));
    assert(t.last() == s[i]);
}

/// Lay out `text` as positioned quads from the origin `(x, y)`: a fixed
/// per-character pitch of 12 units along x, a cell pitch of 3 units within
/// each block. Returns the absolute position of every filled cell, in order;
/// a pure function of its arguments.
pub fn layout_text(text: &str, x: i64, y: i64) -> (cmds: Vec<(i64, i64)>)
    requires
        -1_000_000_000 <= x <= 1_000_000_000,
        -1_000_000_000 <= y <= 1_000_000_000,
        text@.len() <= 100_000,
    ensures
        cmds@.len() == spec_text_layout(text@).len(),
        forall|k: int|
            0 <= k < cmds@.len() ==> (#[trigger] cmds@[k]).0 == x + spec_text_layout(text@)[k].0
                && cmds@[k].1 == y + spec_text_layout(text@)[k].1,
{
    let n = text.unicode_len();
    let mut cmds: Vec<(i64, i64)> = Vec::new();
    let mut i: usize = 0;
    proof {
        assert(text@.subrange(0, 0) =~= Seq::<char>::empty());
    }
    while i < n
        invariant
            i <= n,
            n == text@.len(),
            n <= 100_000,
            -1_000_000_000 <= x <= 1_000_000_000,
            -1_000_000_000 <= y <= 1_000_000_000,
            cmds@.len() == spec_text_layout(text@.subrange(0, i as int)).len(),
            forall|k: int|
                0 <= k < cmds@.len() ==> (#[trigger] cmds@[k]).0 == x + spec_text_layout(
                    text@.subrange(0, i as int),
                )[k].0 && cmds@[k].1 == y + spec_text_layout(text@.subrange(0, i as int))[k].1,
        decreases n - i,
    {
        let c = text.get_char(i);
        let cells = glyph_pattern(c);
        let ghost base = spec_text_layout(text@.subrange(0, i as int));
        let mut j: usize = 0;
        while j < cells.len()
            invariant
                j <= cells@.len(),
                cells@ == spec_glyph(text@[i as int]),
                i < n,
                n == text@.len(),
                n <= 100_000,
                -1_000_000_000 <= x <= 1_000_000_000,
                -1_000_000_000 <= y <= 1_000_000_000,
                cmds@.len() == base.len() + j,
                base == spec_text_layout(text@.subrange(0, i as int)),
                forall|k: int|
                    0 <= k < base.len() ==> (#[trigger] cmds@[k]).0 == x + base[k].0 && cmds@[k].1
                        == y + base[k].1,
                forall|k: int|
                    base.len() <= k < cmds@.len() ==> (#[trigger] cmds@[k]).0 == x + 12 * (i as int)
                        + 3 * (cells@[k - base.len()].0 as int) && cmds@[k].1 == y + 3 * (cells@[k
                        - base.len()].1 as int),
            decreases cells@.len() - j,
        {
            let cell = cells[j];
            cmds.push((x + (i as i64) * 12 + (cell.0 as i64) * 3, y + (cell.1 as i64) * 3));
            j += 1;
        }
        proof {
            lemma_layout_step(text@, i as int);
        }
        i += 1;
    }
    proof {
        assert(text@.subrange(0, n as int) =~= text@);
    }
    cmds
}

} // verus!
