//! Recognising the wake word in recognised speech: edit distance, the
//! fuzzy keyword match with its pinyin spellings, and end-word detection.
use vstd::prelude::*;
use crate::text::{
    all_white_space, chars_eq, chars_of, contains_chars, contains_seq, replace_all, replace_chars, trim, trimmed,
    utf8_len, utf8_len_exceeds, lemma_trim_leading_white_space, lemma_trim_trailing_white_space,
};

verus! {

// ---------------------------------------------------------------------
// Models
// ---------------------------------------------------------------------

pub open spec fn min3(x: nat, y: nat, z: nat) -> nat {
    if x <= y && x <= z {
        x
    } else if y <= z {
        y
    } else {
        z
    }
}

/// Levenshtein distance: the least number of single-character
/// insertions, deletions and substitutions that turn `a` into `b`.
pub open spec fn edit_distance(a: Seq<char>, b: Seq<char>) -> nat
    decreases a.len() + b.len(),
{
    if a.len() == 0 {
        b.len()
    } else if b.len() == 0 {
        a.len()
    } else {
        min3(
            edit_distance(a.drop_last(), b) + 1,
            edit_distance(a, b.drop_last()) + 1,
            edit_distance(a.drop_last(), b.drop_last()) + (if a.last() == b.last() {
                0nat
            } else {
                1nat
            }),
        )
    }
}

/// The spellings of the wake word that speech recognition tends to produce:
/// each pair rewrites a part of the keyword into a variant.
pub open spec fn pinyin_variants() -> Seq<(Seq<char>, Seq<char>)> {
    seq![
        ("shine"@, "晒"@),
        ("shine"@, "小晒"@),
        ("小 shine"@, "小晒"@),
        ("小 shine"@, "小 shai"@),
        ("shine"@, "shai"@),
    ]
}

/// `input` equals or contains the keyword rewritten by variant `j`.
pub open spec fn variant_hit_at(input: Seq<char>, keyword: Seq<char>, j: int) -> bool {
    let v = replace_all(keyword, pinyin_variants()[j].0, pinyin_variants()[j].1);
    input == v || contains_seq(input, v)
}

pub open spec fn variant_hit(input: Seq<char>, keyword: Seq<char>) -> bool {
    exists|j: int| 0 <= j < pinyin_variants().len() && #[trigger] variant_hit_at(input, keyword, j)
}

/// Whether recognised text `input` matches the wake word `keyword`, both
/// already in lower case: after trimming, the input must be non-empty and
/// either equal the keyword, contain it, be contained in a non-empty
/// keyword, contain a pinyin variant of it, or lie within edit distance 2
/// of it when both are longer than 2 bytes.
pub open spec fn fuzzy_match_spec(input_raw: Seq<char>, keyword_raw: Seq<char>) -> bool {
    let input = trim(input_raw);
    let keyword = trim(keyword_raw);
    &&& input.len() > 0
    &&& {
        ||| input == keyword
        ||| contains_seq(input, keyword)
        ||| (keyword.len() > 0 && contains_seq(keyword, input))
        ||| variant_hit(input, keyword)
        ||| (edit_distance(input, keyword) <= 2 && utf8_len(input) > 2 && utf8_len(keyword) > 2)
    }
}

/// Whether `text` contains one of `end_words`.
pub open spec fn has_end_word(text: Seq<char>, end_words: Seq<String>) -> bool {
    exists|i: int| 0 <= i < end_words.len() && contains_seq(text, #[trigger] end_words[i]@)
}

// ---------------------------------------------------------------------
// Trusted boundary
// ---------------------------------------------------------------------

/// What `str::to_lowercase` returns for a string: the Unicode lower-case
/// mapping of every character, which may change the length.
pub uninterp spec fn unicode_lowercase(s: Seq<char>) -> Seq<char>;

/// Calls `str::to_lowercase`; its result is named `unicode_lowercase` of
/// the argument and nothing more is claimed.
#[verifier::external_body]
fn to_lowercase(s: &str) -> (r: String)
    ensures
        r@ == unicode_lowercase(s@),
{
    s.to_lowercase()
}

// ---------------------------------------------------------------------
// Edit distance
// ---------------------------------------------------------------------

/// Adds one, staying at `usize::MAX`.
fn inc_sat(x: usize) -> (r: usize)
    ensures
        r == if x < usize::MAX {
            x + 1
        } else {
            x as int
        },
{
    if x < usize::MAX {
        x + 1
    } else {
        x
    }
}

/// The edit distance is at most the length of the longer sequence.
pub proof fn lemma_edit_distance_le_max(a: Seq<char>, b: Seq<char>)
    ensures
        edit_distance(a, b) <= if a.len() >= b.len() {
            a.len()
        } else {
            b.len()
        },
    decreases a.len() + b.len(),
{
    if a.len() > 0 && b.len() > 0 {
        lemma_edit_distance_le_max(a.drop_last(), b.drop_last());
    }
}

/// Levenshtein distance between two character sequences.
pub fn edit_distance_chars(a: &[char], b: &[char]) -> (d: usize)
    ensures
        d == edit_distance(a@, b@),
{
    let n = a.len();
    let m = b.len();
    if n == 0 {
        return m;
    }
    if m == 0 {
        return n;
    }
    // Row 0: distances from the empty prefix of `a`.
    let mut prev: Vec<usize> = Vec::new();
    let mut j: usize = 0;
    while j < m
        invariant
            j <= m == b@.len(),
            prev@.len() == j,
            forall|k: int| 0 <= k < j ==> prev@[k] == k,
        decreases m - j,
    {
        prev.push(j);
        j = j + 1;
    }
    prev.push(m);
    assert forall|k: int| 0 <= k <= m implies prev@[k] == edit_distance(
        a@.take(0),
        b@.take(k),
    ) by {
        assert(a@.take(0).len() == 0);
    }
    let mut i: usize = 0;
    while i < n
        invariant
            i <= n == a@.len(),
            m == b@.len(),
            prev@.len() == m + 1,
            forall|k: int|
                0 <= k <= m ==> #[trigger] prev@[k] == edit_distance(a@.take(i as int), b@.take(k)),
        decreases n - i,
    {
        let ghost ai = a@.take(i + 1);
        assert(ai.drop_last() =~= a@.take(i as int));
        assert(ai.last() == a@[i as int]);
        let mut cur: Vec<usize> = Vec::new();
        cur.push(i + 1);
        assert(b@.take(0).len() == 0);
        let mut j: usize = 0;
        while j < m
            invariant
                i < n == a@.len(),
                j <= m == b@.len(),
                prev@.len() == m + 1,
                ai == a@.take(i + 1),
                ai.drop_last() == a@.take(i as int),
                ai.last() == a@[i as int],
                forall|k: int|
                    0 <= k <= m ==> #[trigger] prev@[k] == edit_distance(
                        a@.take(i as int),
                        b@.take(k),
                    ),
                cur@.len() == j + 1,
                forall|k: int| 0 <= k <= j ==> #[trigger] cur@[k] == edit_distance(ai, b@.take(k)),
            decreases m - j,
        {
            let ghost bj = b@.take(j + 1);
            assert(bj.drop_last() =~= b@.take(j as int));
            assert(bj.last() == b@[j as int]);
            let del = inc_sat(prev[j + 1]);
            let ins = inc_sat(cur[j]);
            let sub = if a[i] == b[j] {
                prev[j]
            } else {
                inc_sat(prev[j])
            };
            let mut best = del;
            if ins < best {
                best = ins;
            }
            if sub < best {
                best = sub;
            }
            proof {
                lemma_edit_distance_le_max(ai, bj);
                assert(prev@[j + 1] == edit_distance(ai.drop_last(), bj));
                assert(prev@[j as int] == edit_distance(ai.drop_last(), bj.drop_last()));
                assert(cur@[j as int] == edit_distance(ai, bj.drop_last()));
                assert(best == edit_distance(ai, bj));
            }
            cur.push(best);
            j = j + 1;
        }
        prev = cur;
        i = i + 1;
    }
    assert(a@.take(n as int) =~= a@);
    assert(b@.take(m as int) =~= b@);
    prev[m]
}

/// Levenshtein distance between the characters of two strings.
pub fn levenshtein_distance(s1: &str, s2: &str) -> (d: usize)
    ensures
        d == edit_distance(s1@, s2@),
{
    let a = chars_of(s1);
    let b = chars_of(s2);
    edit_distance_chars(a.as_slice(), b.as_slice())
}

// ---------------------------------------------------------------------
// Fuzzy keyword match
// ---------------------------------------------------------------------

/// Whether `input` equals or contains `keyword` rewritten from `from` to `to`.
fn variant_matches(input: &[char], keyword: &[char], from: &str, to: &str) -> (r: bool)
    requires
        from@.len() > 0,
    ensures
        r == ({
            let v = replace_all(keyword@, from@, to@);
            input@ == v || contains_seq(input@, v)
        }),
{
    let f = chars_of(from);
    let t = chars_of(to);
    let v = replace_chars(keyword, f.as_slice(), t.as_slice());
    chars_eq(input, v.as_slice()) || contains_chars(input, v.as_slice())
}

/// The fuzzy wake-word match on text that is already in lower case.
pub fn fuzzy_match_lowercased(input: &str, keyword: &str) -> (r: bool)
    ensures
        r == fuzzy_match_spec(input@, keyword@),
{
    let ic = chars_of(input);
    let kc = chars_of(keyword);
    let i = trimmed(ic.as_slice());
    let k = trimmed(kc.as_slice());
    if i.len() == 0 {
        return false;
    }
    if chars_eq(i.as_slice(), k.as_slice()) {
        return true;
    }
    if contains_chars(i.as_slice(), k.as_slice()) {
        return true;
    }
    if k.len() != 0 && contains_chars(k.as_slice(), i.as_slice()) {
        return true;
    }
    proof {
        reveal_strlit("shine");
        reveal_strlit("小 shine");
    }
    let v0 = variant_matches(i.as_slice(), k.as_slice(), "shine", "晒");
    let v1 = variant_matches(i.as_slice(), k.as_slice(), "shine", "小晒");
    let v2 = variant_matches(i.as_slice(), k.as_slice(), "小 shine", "小晒");
    let v3 = variant_matches(i.as_slice(), k.as_slice(), "小 shine", "小 shai");
    let v4 = variant_matches(i.as_slice(), k.as_slice(), "shine", "shai");
    proof {
        let ps = pinyin_variants();
        assert(ps.len() == 5);
        assert(v0 == variant_hit_at(i@, k@, 0));
        assert(v1 == variant_hit_at(i@, k@, 1));
        assert(v2 == variant_hit_at(i@, k@, 2));
        assert(v3 == variant_hit_at(i@, k@, 3));
        assert(v4 == variant_hit_at(i@, k@, 4));
        if variant_hit(i@, k@) {
            let j = choose|j: int| 0 <= j < ps.len() && #[trigger] variant_hit_at(i@, k@, j);
            assert(j == 0 || j == 1 || j == 2 || j == 3 || j == 4);
        }
    }
    if v0 || v1 || v2 || v3 || v4 {
        return true;
    }
    let d = edit_distance_chars(i.as_slice(), k.as_slice());
    d <= 2 && utf8_len_exceeds(i.as_slice(), 2) && utf8_len_exceeds(k.as_slice(), 2)
}

/// Whether recognised text `input` matches the wake word `keyword`: both
/// are lower-cased first, then compared as `fuzzy_match_spec` says.
pub fn fuzzy_match_keyword(input: &str, keyword: &str) -> (r: bool)
    ensures
        r == fuzzy_match_spec(unicode_lowercase(input@), unicode_lowercase(keyword@)),
{
    let i = to_lowercase(input);
    let k = to_lowercase(keyword);
    fuzzy_match_lowercased(i.as_str(), k.as_str())
}

/// Whether `text` contains any of `end_words`.
pub fn contains_end_word(text: &str, end_words: &[String]) -> (r: bool)
    ensures
        r == has_end_word(text@, end_words@),
{
    let t = chars_of(text);
    let mut i: usize = 0;
    while i < end_words.len()
        invariant
            i <= end_words@.len(),
            t@ == text@,
            forall|k: int| 0 <= k < i ==> !contains_seq(text@, #[trigger] end_words@[k]@),
        decreases end_words@.len() - i,
    {
        let w = chars_of(end_words[i].as_str());
        if contains_chars(t.as_slice(), w.as_slice()) {
            return true;
        }
        i = i + 1;
    }
    false
}

// ---------------------------------------------------------------------
// Laws
// ---------------------------------------------------------------------

/// A sequence is at distance 0 from itself.
pub proof fn law_edit_distance_identity(a: Seq<char>)
    ensures
        edit_distance(a, a) == 0,
    decreases a.len(),
{
    if a.len() > 0 {
        law_edit_distance_identity(a.drop_last());
    }
}

/// The distance from `a` to `b` equals the distance from `b` to `a`.
pub proof fn law_edit_distance_symmetric(a: Seq<char>, b: Seq<char>)
    ensures
        edit_distance(a, b) == edit_distance(b, a),
    decreases a.len() + b.len(),
{
    if a.len() > 0 && b.len() > 0 {
        law_edit_distance_symmetric(a.drop_last(), b);
        law_edit_distance_symmetric(a, b.drop_last());
        law_edit_distance_symmetric(a.drop_last(), b.drop_last());
    }
}

/// The distance is at least the difference of the lengths.
pub proof fn lemma_edit_distance_ge_len_diff(a: Seq<char>, b: Seq<char>)
    ensures
        a.len() - b.len() <= edit_distance(a, b),
        b.len() - a.len() <= edit_distance(a, b),
    decreases a.len() + b.len(),
{
    if a.len() > 0 && b.len() > 0 {
        lemma_edit_distance_ge_len_diff(a.drop_last(), b);
        lemma_edit_distance_ge_len_diff(a, b.drop_last());
        lemma_edit_distance_ge_len_diff(a.drop_last(), b.drop_last());
    }
}

/// The distance to the empty sequence is the length, and every distance
/// lies between the difference of the lengths and the longer length.
pub proof fn law_edit_distance_bounds(a: Seq<char>, b: Seq<char>)
    ensures
        edit_distance(a, Seq::<char>::empty()) == a.len(),
        a.len() - b.len() <= edit_distance(a, b),
        b.len() - a.len() <= edit_distance(a, b),
        edit_distance(a, b) <= if a.len() >= b.len() {
            a.len()
        } else {
            b.len()
        },
{
    lemma_edit_distance_le_max(a, b);
    lemma_edit_distance_ge_len_diff(a, b);
}

/// Two sequences are at distance 0 exactly when they are equal.
pub proof fn law_edit_distance_zero_iff_equal(a: Seq<char>, b: Seq<char>)
    ensures
        edit_distance(a, b) == 0 <==> a == b,
    decreases a.len() + b.len(),
{
    law_edit_distance_identity(a);
    lemma_edit_distance_ge_len_diff(a, b);
    if edit_distance(a, b) == 0 {
        if a.len() > 0 && b.len() > 0 {
            assert(edit_distance(a.drop_last(), b.drop_last()) == 0 && a.last() == b.last());
            law_edit_distance_zero_iff_equal(a.drop_last(), b.drop_last());
            assert(a =~= a.drop_last().push(a.last()));
            assert(b =~= b.drop_last().push(b.last()));
        } else {
            assert(a =~= b);
        }
    }
}

/// Going from `a` to `c` never costs more than going through `b`.
pub proof fn law_edit_distance_triangle(a: Seq<char>, b: Seq<char>, c: Seq<char>)
    ensures
        edit_distance(a, c) <= edit_distance(a, b) + edit_distance(b, c),
    decreases a.len() + b.len() + c.len(),
{
    lemma_edit_distance_ge_len_diff(a, b);
    lemma_edit_distance_ge_len_diff(b, c);
    lemma_edit_distance_le_max(a, c);
    if a.len() > 0 && b.len() > 0 && c.len() > 0 {
        let a1 = a.drop_last();
        let b1 = b.drop_last();
        let c1 = c.drop_last();
        let ab = edit_distance(a, b);
        let bc = edit_distance(b, c);
        let ac = edit_distance(a, c);
        assert(ac <= edit_distance(a1, c) + 1);
        assert(ac <= edit_distance(a, c1) + 1);
        assert(ac <= edit_distance(a1, c1) + (if a.last() == c.last() { 0nat } else { 1nat }));
        if ab == edit_distance(a1, b) + 1 {
            law_edit_distance_triangle(a1, b, c);
        } else if bc == edit_distance(b, c1) + 1 {
            law_edit_distance_triangle(a, b, c1);
        } else if ab == edit_distance(a, b1) + 1 {
            if bc == edit_distance(b1, c) + 1 {
                law_edit_distance_triangle(a, b1, c);
            } else {
                law_edit_distance_triangle(a, b1, c1);
            }
        } else {
            assert(ab == edit_distance(a1, b1) + (if a.last() == b.last() { 0nat } else { 1nat }));
            if bc == edit_distance(b1, c) + 1 {
                law_edit_distance_triangle(a1, b1, c);
            } else {
                assert(bc == edit_distance(b1, c1) + (if b.last() == c.last() { 0nat } else { 1nat }));
                law_edit_distance_triangle(a1, b1, c1);
            }
        }
    }
}

/// Text that is empty once trimmed never matches the wake word.
pub proof fn law_blank_input_never_matches(input: Seq<char>, keyword: Seq<char>)
    requires
        trim(input).len() == 0,
    ensures
        !fuzzy_match_spec(input, keyword),
{
}

/// Text that contains the wake word, or equals it, matches it, provided it
/// is not blank.
pub proof fn law_containing_input_matches(input: Seq<char>, keyword: Seq<char>)
    requires
        trim(input).len() > 0,
        contains_seq(trim(input), trim(keyword)),
    ensures
        fuzzy_match_spec(input, keyword),
{
}

/// Every non-blank text matches itself as a keyword.
pub proof fn law_match_reflexive(input: Seq<char>)
    requires
        trim(input).len() > 0,
    ensures
        fuzzy_match_spec(input, input),
{
}

/// A non-blank text that is a part of the wake word matches it.
pub proof fn law_partial_input_matches(input: Seq<char>, keyword: Seq<char>)
    requires
        trim(input).len() > 0,
        contains_seq(trim(keyword), trim(input)),
    ensures
        fuzzy_match_spec(input, keyword),
{
}

/// White space around the recognised text or around the wake word never
/// changes whether they match.
pub proof fn law_surrounding_white_space_ignored(
    input: Seq<char>,
    keyword: Seq<char>,
    w1: Seq<char>,
    w2: Seq<char>,
    w3: Seq<char>,
    w4: Seq<char>,
)
    requires
        all_white_space(w1),
        all_white_space(w2),
        all_white_space(w3),
        all_white_space(w4),
    ensures
        fuzzy_match_spec(w1 + input + w2, w3 + keyword + w4) == fuzzy_match_spec(input, keyword),
{
    lemma_trim_trailing_white_space(w1 + input, w2);
    lemma_trim_leading_white_space(w1, input);
    lemma_trim_trailing_white_space(w3 + keyword, w4);
    lemma_trim_leading_white_space(w3, keyword);
}


/// A text that is the wake word with one of its pinyin spellings
/// substituted matches the wake word.
pub proof fn law_pinyin_spelling_matches(input: Seq<char>, keyword: Seq<char>, j: int)
    requires
        trim(input).len() > 0,
        0 <= j < pinyin_variants().len(),
        trim(input) == replace_all(trim(keyword), pinyin_variants()[j].0, pinyin_variants()[j].1),
    ensures
        fuzzy_match_spec(input, keyword),
{
    assert(variant_hit_at(trim(input), trim(keyword), j));
}

} // verus!
