use vstd::prelude::*;

verus! {

/// Number of entries in the CJK range table.
pub const RANGE_COUNT: usize = 60;

/// The blocks of code points classified as CJK, as inclusive `(low, high)` bounds in
/// ascending order (a single code point is a range whose bounds coincide).
pub open spec fn cjk_ranges() -> Seq<(u32, u32)> {
    seq![
        (0x1100, 0x11ff), // Hangul Jamo
        (0x20a9, 0x20a9), // Won Sign (₩)
        (0x2329, 0x232a), // Left/Right-Pointing Angle Bracket
        (0x2630, 0x2637), // Trigrams for Divination
        (0x268a, 0x268f), // Digrams/Monograms
        (0x2e80, 0x2e99), // CJK Radicals Supplement (Part 1)
        (0x2e9b, 0x2ef3), // CJK Radicals Supplement (Part 2)
        (0x2f00, 0x2fd5), // Kangxi Radicals
        (0x2ff0, 0x303e), // Ideographic Description Characters + CJK Symbols and Punctuation
        (0x3041, 0x3096), // Hiragana
        (0x3099, 0x30ff), // Combining Marks + Katakana
        (0x3105, 0x312f), // Bopomofo
        (0x3131, 0x318e), // Hangul Compatibility Jamo
        (0x3190, 0x31e5), // Kanbun + CJK Strokes + Katakana Phonetic Extensions + Enclosed CJK Letters and Months (Part 1)
        (0x31ef, 0x321e), // Enclosed CJK Letters and Months (Part 2)
        (0x3220, 0x3247), // Enclosed CJK Letters and Months (Part 3)
        (0x3250, 0xa48c), // CJK Compatibility + Yi Syllables + Yi Radicals
        (0xa490, 0xa4c6), // Yi Radicals
        (0xa960, 0xa97c), // Hangul Jamo Extended-A
        (0xac00, 0xd7a3), // Hangul Syllables
        (0xd7b0, 0xd7c6), // Hangul Jamo Extended-B
        (0xd7cb, 0xd7fb), // Hangul Jamo Extended-B (Part 2)
        (0xf900, 0xfaff), // CJK Compatibility Ideographs
        (0xfe10, 0xfe19), // Vertical Forms
        (0xfe30, 0xfe52), // CJK Compatibility Forms (Part 1)
        (0xfe54, 0xfe66), // CJK Compatibility Forms (Part 2)
        (0xfe68, 0xfe6b), // CJK Compatibility Forms (Part 3)
        (0xff01, 0xffbe), // Halfwidth and Fullwidth Forms (Part 1)
        (0xffc2, 0xffc7), // Halfwidth and Fullwidth Forms (Part 2)
        (0xffca, 0xffcf), // Halfwidth and Fullwidth Forms (Part 3)
        (0xffd2, 0xffd7), // Halfwidth and Fullwidth Forms (Part 4)
        (0xffda, 0xffdc), // Halfwidth and Fullwidth Forms (Part 5)
        (0xffe0, 0xffe6), // Halfwidth and Fullwidth Forms (Part 6)
        (0xffe8, 0xffee), // Halfwidth and Fullwidth Forms (Part 7)
        (0x16fe0, 0x16fe4), // Ideographic Symbols and Punctuation
        (0x16ff0, 0x16ff6), // Vietnamese Extensions
        (0x17000, 0x18cd5), // Tangut Ideographs + Tangut Components
        (0x18cff, 0x18d1e), // Tangut Supplement
        (0x18d80, 0x18df2), // Tangut Supplement (Part 2)
        (0x1aff0, 0x1aff3), // Kana Extended-B (Part 1)
        (0x1aff5, 0x1affb), // Kana Extended-B (Part 2)
        (0x1affd, 0x1affe), // Kana Extended-B (Part 3)
        (0x1b000, 0x1b122), // Kana Extended-A + Kana Supplement
        (0x1b132, 0x1b132), // Kana Supplement (Single)
        (0x1b150, 0x1b152), // Kana Supplement (Part 2)
        (0x1b155, 0x1b155), // Kana Supplement (Single)
        (0x1b164, 0x1b167), // Kana Supplement (Part 3)
        (0x1b170, 0x1b2fb), // Nushu
        (0x1d300, 0x1d356), // Tai Xuan Jing Symbols
        (0x1d360, 0x1d376), // Counting Rod Numerals
        (0x1f200, 0x1f200), // Enclosed Ideographic Supplement (Single)
        (0x1f202, 0x1f202), // Enclosed Ideographic Supplement (Single)
        (0x1f210, 0x1f219), // Enclosed Ideographic Supplement (Part 1)
        (0x1f21b, 0x1f22e), // Enclosed Ideographic Supplement (Part 2)
        (0x1f230, 0x1f231), // Enclosed Ideographic Supplement (Part 3)
        (0x1f237, 0x1f237), // Enclosed Ideographic Supplement (Single)
        (0x1f23b, 0x1f23b), // Enclosed Ideographic Supplement (Single)
        (0x1f240, 0x1f248), // Enclosed Ideographic Supplement (Part 4)
        (0x1f260, 0x1f265), // Enclosed Ideographic Supplement (Part 5)
        (0x20000, 0x3fffd), // CJK Unified Ideographs Extension B, C, D, E, F, G, H, I
    ]
}

/// `v` lies within the inclusive bounds of `r`.
pub open spec fn in_range(r: (u32, u32), v: int) -> bool {
    r.0 <= v <= r.1
}

/// The executable copy of the range table.
pub fn range_table() -> (t: [(u32, u32); RANGE_COUNT])
    ensures
        t@ == cjk_ranges(),
{
    let t = [
        (0x1100u32, 0x11ffu32),
        (0x20a9, 0x20a9),
        (0x2329, 0x232a),
        (0x2630, 0x2637),
        (0x268a, 0x268f),
        (0x2e80, 0x2e99),
        (0x2e9b, 0x2ef3),
        (0x2f00, 0x2fd5),
        (0x2ff0, 0x303e),
        (0x3041, 0x3096),
        (0x3099, 0x30ff),
        (0x3105, 0x312f),
        (0x3131, 0x318e),
        (0x3190, 0x31e5),
        (0x31ef, 0x321e),
        (0x3220, 0x3247),
        (0x3250, 0xa48c),
        (0xa490, 0xa4c6),
        (0xa960, 0xa97c),
        (0xac00, 0xd7a3),
        (0xd7b0, 0xd7c6),
        (0xd7cb, 0xd7fb),
        (0xf900, 0xfaff),
        (0xfe10, 0xfe19),
        (0xfe30, 0xfe52),
        (0xfe54, 0xfe66),
        (0xfe68, 0xfe6b),
        (0xff01, 0xffbe),
        (0xffc2, 0xffc7),
        (0xffca, 0xffcf),
        (0xffd2, 0xffd7),
        (0xffda, 0xffdc),
        (0xffe0, 0xffe6),
        (0xffe8, 0xffee),
        (0x16fe0, 0x16fe4),
        (0x16ff0, 0x16ff6),
        (0x17000, 0x18cd5),
        (0x18cff, 0x18d1e),
        (0x18d80, 0x18df2),
        (0x1aff0, 0x1aff3),
        (0x1aff5, 0x1affb),
        (0x1affd, 0x1affe),
        (0x1b000, 0x1b122),
        (0x1b132, 0x1b132),
        (0x1b150, 0x1b152),
        (0x1b155, 0x1b155),
        (0x1b164, 0x1b167),
        (0x1b170, 0x1b2fb),
        (0x1d300, 0x1d356),
        (0x1d360, 0x1d376),
        (0x1f200, 0x1f200),
        (0x1f202, 0x1f202),
        (0x1f210, 0x1f219),
        (0x1f21b, 0x1f22e),
        (0x1f230, 0x1f231),
        (0x1f237, 0x1f237),
        (0x1f23b, 0x1f23b),
        (0x1f240, 0x1f248),
        (0x1f260, 0x1f265),
        (0x20000, 0x3fffd),
    ];
    assert(t@ =~= cjk_ranges());
    t
}

/// Every entry of `s` from index `k` on has `low <= high`, and ends at least two
/// code points before the next entry starts, so that a gap separates the two.
pub open spec fn separated_from(s: Seq<(u32, u32)>, k: int) -> bool
    decreases s.len() - k,
{
    if k < 0 || k >= s.len() {
        true
    } else {
        &&& s[k].0 <= s[k].1
        &&& (k + 1 < s.len() ==> s[k].1 + 1 < s[k + 1].0)
        &&& separated_from(s, k + 1)
    }
}

/// Any two entries of `s`, taken in order, are separated by a gap.
pub open spec fn separated(s: Seq<(u32, u32)>) -> bool {
    &&& forall|i: int| 0 <= i < s.len() ==> (#[trigger] s[i]).0 <= s[i].1
    &&& forall|i: int, j: int| 0 <= i < j < s.len() ==> #[trigger] s[i].1 + 1 < #[trigger] s[j].0
}

proof fn lemma_separated_from_step(s: Seq<(u32, u32)>, k: int, i: int)
    requires
        0 <= k <= i < s.len(),
        separated_from(s, k),
    ensures
        s[i].0 <= s[i].1,
        i + 1 < s.len() ==> s[i].1 + 1 < s[i + 1].0,
    decreases i - k,
{
    if k < i {
        lemma_separated_from_step(s, k + 1, i);
    }
}

proof fn lemma_gap_widens(s: Seq<(u32, u32)>, i: int, j: int)
    requires
        0 <= i < j < s.len(),
        separated_from(s, 0),
    ensures
        s[i].1 + 1 < s[j].0,
    decreases j - i,
{
    lemma_separated_from_step(s, 0, i);
    if i + 1 < j {
        lemma_separated_from_step(s, 0, i + 1);
        lemma_gap_widens(s, i + 1, j);
    }
}

proof fn lemma_table_separated_from()
    ensures
        separated_from(cjk_ranges(), 0),
{
    reveal_with_fuel(separated_from, 61);
}

/// The table lists well-formed ranges in strictly ascending order, each separated
/// from every later one by at least one code point that no range covers.
pub proof fn lemma_table_separated()
    ensures
        separated(cjk_ranges()),
{
    let s = cjk_ranges();
    lemma_table_separated_from();
    assert forall|i: int| 0 <= i < s.len() implies (#[trigger] s[i]).0 <= s[i].1 by {
        lemma_separated_from_step(s, 0, i);
    }
    assert forall|i: int, j: int| 0 <= i < j < s.len() implies #[trigger] s[i].1 + 1
        < #[trigger] s[j].0 by {
        lemma_gap_widens(s, i, j);
    }
}

/// No two distinct ranges of the table share a code point.
pub proof fn lemma_ranges_disjoint(i: int, j: int)
    requires
        0 <= i < cjk_ranges().len(),
        0 <= j < cjk_ranges().len(),
        i != j,
    ensures
        forall|v: int| !(in_range(cjk_ranges()[i], v) && in_range(cjk_ranges()[j], v)),
{
    lemma_table_separated();
}

} // verus!
