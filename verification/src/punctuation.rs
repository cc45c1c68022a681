use vstd::prelude::*;

use crate::text::{
    chars_of, contains_chars, contains_spec, is_whitespace_spec, lemma_trim_end_len_bound,
    occurs_at, string_from_chars, trim_end_chars, trim_end_len, trim_end_spec,
};

verus! {

/// CJK code point ranges (unified ideographs, extension A, radicals, CJK symbols and
/// punctuation, half/full-width forms, compatibility ideographs).
pub open spec fn is_cjk_spec(c: char) -> bool {
    let cp = c as u32;
    ||| 0x4E00 <= cp <= 0x9FFF
    ||| 0x3400 <= cp <= 0x4DBF
    ||| 0x2E80 <= cp <= 0x2EFF
    ||| 0x3000 <= cp <= 0x303F
    ||| 0xFF00 <= cp <= 0xFFEF
    ||| 0xF900 <= cp <= 0xFAFF
}

/// Characters that already close a sentence.
pub open spec fn is_ending_punctuation_spec(c: char) -> bool {
    ||| c == '.'
    ||| c == '\u{3002}'
    ||| c == '?'
    ||| c == '\u{FF1F}'
    ||| c == '!'
    ||| c == '\u{FF01}'
    ||| c == '\u{2026}'
    ||| c == '"'
    ||| c == '\u{201D}'
    ||| c == '\u{300D}'
}

/// The full-width equivalent of an ASCII punctuation mark, or the character itself.
pub open spec fn chinese_equivalent(c: char) -> char {
    if c == ',' {
        '\u{FF0C}'
    } else if c == '.' {
        '\u{3002}'
    } else if c == '?' {
        '\u{FF1F}'
    } else if c == '!' {
        '\u{FF01}'
    } else if c == ':' {
        '\u{FF1A}'
    } else if c == ';' {
        '\u{FF1B}'
    } else if c == '(' {
        '\u{FF08}'
    } else if c == ')' {
        '\u{FF09}'
    } else {
        c
    }
}

/// `c` is one of the ASCII marks that have a full-width form: `, . ? ! : ; ( )`.
pub open spec fn is_ascii_mark(c: char) -> bool {
    c == ',' || c == '.' || c == '?' || c == '!' || c == ':' || c == ';' || c == '(' || c == ')'
}

/// `w` is the full-width form of the ASCII mark `c`
/// (`，` `。` `？` `！` `：` `；` `（` `）`).
pub open spec fn is_full_width_of(c: char, w: char) -> bool {
    ||| c == ',' && w == '\u{FF0C}'
    ||| c == '.' && w == '\u{3002}'
    ||| c == '?' && w == '\u{FF1F}'
    ||| c == '!' && w == '\u{FF01}'
    ||| c == ':' && w == '\u{FF1A}'
    ||| c == ';' && w == '\u{FF1B}'
    ||| c == '(' && w == '\u{FF08}'
    ||| c == ')' && w == '\u{FF09}'
}

/// Position `i` of `s` has a CJK character right before or right after it.
pub open spec fn in_chinese_context(s: Seq<char>, i: int) -> bool {
    ||| (i > 0 && is_cjk_spec(s[i - 1]))
    ||| (i + 1 < s.len() && is_cjk_spec(s[i + 1]))
}

/// Every ASCII punctuation mark next to a CJK character replaced by its full-width
/// equivalent; all other characters kept.
pub open spec fn replace_english_punctuation_spec(s: Seq<char>) -> Seq<char> {
    Seq::new(
        s.len(),
        |i: int|
            if in_chinese_context(s, i) {
                chinese_equivalent(s[i])
            } else {
                s[i]
            },
    )
}

/// The words that mark a sentence as a question.
pub open spec fn question_words() -> Seq<Seq<char>> {
    seq![
        "吗"@,
        "呢"@,
        "么"@,
        "什么"@,
        "怎么"@,
        "为什么"@,
        "哪"@,
        "哪里"@,
        "哪个"@,
        "几"@,
        "多少"@,
        "是否"@,
        "能否"@,
        "可否"@,
        "是不是"@,
        "对不对"@,
        "好不好"@,
    ]
}

/// Some question word occurs in `t`.
pub open spec fn contains_question_words_spec(t: Seq<char>) -> bool {
    exists|k: int| 0 <= k < question_words().len() && contains_spec(t, #[trigger] question_words()[k])
}

/// The mark appended to a sentence that lacks one.
pub open spec fn closing_mark(t: Seq<char>) -> char {
    let cjk = is_cjk_spec(t.last());
    if contains_question_words_spec(t) {
        if cjk {
            '\u{FF1F}'
        } else {
            '?'
        }
    } else {
        if cjk {
            '\u{3002}'
        } else {
            '.'
        }
    }
}

/// Trailing whitespace removed and a closing mark added where the text lacks one;
/// text that is all whitespace is kept as it is.
pub open spec fn ensure_ending_punctuation_spec(s: Seq<char>) -> Seq<char> {
    let t = trim_end_spec(s);
    if t.len() == 0 {
        s
    } else if is_ending_punctuation_spec(t.last()) {
        t
    } else {
        t.push(closing_mark(t))
    }
}

/// The post-processing of a transcription.
pub open spec fn fix_punctuation_spec(s: Seq<char>) -> Seq<char> {
    if s.len() == 0 {
        Seq::empty()
    } else {
        ensure_ending_punctuation_spec(replace_english_punctuation_spec(s))
    }
}


proof fn lemma_equivalent_keeps_whitespace(c: char)
    ensures
        is_whitespace_spec(chinese_equivalent(c)) == is_whitespace_spec(c),
        !is_cjk_spec(c) ==> !is_cjk_spec(chinese_equivalent(c)) || c == ',' || c == '.' || c
            == '?' || c == '!' || c == ':' || c == ';' || c == '(' || c == ')',
        is_ending_punctuation_spec(chinese_equivalent(c)) == is_ending_punctuation_spec(c),
{
}

/// Two texts of equal length with whitespace at the same positions keep the same
/// length once trailing whitespace is removed.
proof fn lemma_trim_end_len_same_shape(a: Seq<char>, b: Seq<char>)
    requires
        a.len() == b.len(),
        forall|i: int| 0 <= i < a.len() ==> is_whitespace_spec(a[i]) == is_whitespace_spec(b[i]),
    ensures
        trim_end_len(a) == trim_end_len(b),
    decreases a.len(),
{
    if a.len() > 0 {
        assert(is_whitespace_spec(a.last()) == is_whitespace_spec(b.last()));
        lemma_trim_end_len_same_shape(a.drop_last(), b.drop_last());
    }
}

proof fn lemma_replace_keeps_trim_len(s: Seq<char>)
    ensures
        trim_end_len(replace_english_punctuation_spec(s)) == trim_end_len(s),
{
    let r = replace_english_punctuation_spec(s);
    assert forall|i: int| 0 <= i < s.len() implies is_whitespace_spec(r[i]) == is_whitespace_spec(
        s[i],
    ) by {
        lemma_equivalent_keeps_whitespace(s[i]);
    }
    lemma_trim_end_len_same_shape(r, s);
}

/// Every question word is a non-empty run of CJK characters.
proof fn lemma_question_words_cjk()
    ensures
        forall|k: int|
            0 <= k < question_words().len() ==> (#[trigger] question_words()[k]).len() > 0
                && forall|j: int|
                0 <= j < question_words()[k].len() ==> is_cjk_spec(
                    #[trigger] question_words()[k][j],
                ),
{
    reveal_strlit("吗");
    reveal_strlit("呢");
    reveal_strlit("么");
    reveal_strlit("什么");
    reveal_strlit("怎么");
    reveal_strlit("为什么");
    reveal_strlit("哪");
    reveal_strlit("哪里");
    reveal_strlit("哪个");
    reveal_strlit("几");
    reveal_strlit("多少");
    reveal_strlit("是否");
    reveal_strlit("能否");
    reveal_strlit("可否");
    reveal_strlit("是不是");
    reveal_strlit("对不对");
    reveal_strlit("好不好");
}

proof fn lemma_no_cjk_no_question(t: Seq<char>)
    requires
        forall|i: int| 0 <= i < t.len() ==> !is_cjk_spec(#[trigger] t[i]),
    ensures
        !contains_question_words_spec(t),
{
    lemma_question_words_cjk();
    assert forall|k: int| 0 <= k < question_words().len() implies !contains_spec(
        t,
        #[trigger] question_words()[k],
    ) by {
        let w = question_words()[k];
        assert forall|i: int| !#[trigger] occurs_at(t, w, i) by {
            if occurs_at(t, w, i) {
                assert(t[i + 0] == w[0]);
            }
        }
    }
}

/// Text with a non-whitespace character comes out closed by a sentence mark.
proof fn lemma_fix_closes(s: Seq<char>)
    requires
        trim_end_len(s) > 0,
    ensures
        fix_punctuation_spec(s).len() > 0,
        is_ending_punctuation_spec(fix_punctuation_spec(s).last()),
{
    lemma_trim_end_len_bound(s);
    lemma_replace_keeps_trim_len(s);
}

/// Text without CJK characters keeps its punctuation; it only loses trailing
/// whitespace and gains a full stop if it has no closing mark.
proof fn lemma_fix_english(s: Seq<char>)
    requires
        forall|i: int| 0 <= i < s.len() ==> !is_cjk_spec(#[trigger] s[i]),
    ensures
        replace_english_punctuation_spec(s) == s,
        fix_punctuation_spec(s) == (if trim_end_len(s) == 0 {
            s
        } else if is_ending_punctuation_spec(trim_end_spec(s).last()) {
            trim_end_spec(s)
        } else {
            trim_end_spec(s).push('.')
        }),
{
    assert(replace_english_punctuation_spec(s) =~= s);
    lemma_trim_end_len_bound(s);
    let t = trim_end_spec(s);
    assert forall|i: int| 0 <= i < t.len() implies !is_cjk_spec(#[trigger] t[i]) by {
        assert(t[i] == s[i]);
    }
    lemma_no_cjk_no_question(t);
    if s.len() == 0 {
        assert(s =~= Seq::<char>::empty());
    }
}

/// A sentence holding a question word and no closing mark is closed by a question mark.
proof fn lemma_fix_question(s: Seq<char>)
    requires
        trim_end_len(s) > 0,
        !is_ending_punctuation_spec(trim_end_spec(s).last()),
        contains_question_words_spec(trim_end_spec(s)),
    ensures
        fix_punctuation_spec(s).last() == '?' || fix_punctuation_spec(s).last() == '\u{FF1F}',
{
    lemma_trim_end_len_bound(s);
    lemma_replace_keeps_trim_len(s);
    lemma_question_words_cjk();
    let r = replace_english_punctuation_spec(s);
    let t = trim_end_spec(s);
    let tr = trim_end_spec(r);
    let n = trim_end_len(s);
    lemma_equivalent_keeps_whitespace(s[n - 1]);
    assert(tr.last() == r[n - 1]);
    let k = choose|k: int|
        0 <= k < question_words().len() && contains_spec(t, #[trigger] question_words()[k]);
    let w = question_words()[k];
    let i = choose|i: int| #[trigger] occurs_at(t, w, i);
    assert forall|m: int| 0 <= m < w.len() implies tr[i + m] == w[m] by {
        assert(t[i + m] == w[m]);
        assert(s[i + m] == w[m]);
        assert(is_cjk_spec(w[m]));
        assert(r[i + m] == (if in_chinese_context(s, i + m) {
            chinese_equivalent(s[i + m])
        } else {
            s[i + m]
        }));
    }
    assert(occurs_at(tr, w, i));
    assert(contains_spec(tr, question_words()[k]));
}

/// The replacement looks at both neighbours: an ASCII mark with a CJK character right
/// before it or right after it becomes its full-width form; every other character,
/// and every mark between two non-CJK characters, is kept; the length is unchanged.
pub proof fn lemma_replace_marks(s: Seq<char>)
    ensures
        replace_english_punctuation_spec(s).len() == s.len(),
        forall|i: int|
            #![trigger replace_english_punctuation_spec(s)[i]]
            0 <= i < s.len() && is_ascii_mark(s[i]) && ((i > 0 && is_cjk_spec(s[i - 1])) || (i + 1
                < s.len() && is_cjk_spec(s[i + 1]))) ==> is_full_width_of(
                s[i],
                replace_english_punctuation_spec(s)[i],
            ),
        forall|i: int|
            #![trigger replace_english_punctuation_spec(s)[i]]
            0 <= i < s.len() && !(is_ascii_mark(s[i]) && ((i > 0 && is_cjk_spec(s[i - 1])) || (i
                + 1 < s.len() && is_cjk_spec(s[i + 1])))) ==> replace_english_punctuation_spec(s)[i]
                == s[i],
{
}

/// The text before the closing mark is the replaced text, character for character.
proof fn lemma_fix_prefix(s: Seq<char>)
    requires
        s.len() > 0,
    ensures
        fix_punctuation_spec(s).len() >= trim_end_len(s),
        forall|i: int|
            0 <= i < trim_end_len(s) ==> #[trigger] fix_punctuation_spec(s)[i]
                == replace_english_punctuation_spec(s)[i],
{
    lemma_trim_end_len_bound(s);
    lemma_replace_keeps_trim_len(s);
    lemma_trim_end_len_bound(replace_english_punctuation_spec(s));
}

/// How a text is closed: a text that already ends (before its trailing whitespace)
/// with a closing mark gets none; otherwise exactly one mark is added, full-width
/// exactly when the last character is CJK, and a question mark exactly when a question
/// word occurs in the text; a text of whitespace only is kept as it is.
pub proof fn lemma_fix_closing(s: Seq<char>)
    requires
        s.len() > 0,
    ensures
        ({
            let f = fix_punctuation_spec(s);
            let n = trim_end_len(s) as int;
            &&& n == 0 ==> f == s
            &&& n > 0 && is_ending_punctuation_spec(f[n - 1]) ==> f.len() == n
            &&& n > 0 && !is_ending_punctuation_spec(f[n - 1]) ==> {
                &&& f.len() == n + 1
                &&& is_ending_punctuation_spec(f[n])
                &&& (is_cjk_spec(f[n]) <==> is_cjk_spec(f[n - 1]))
                &&& ((f[n] == '?' || f[n] == '\u{FF1F}') <==> contains_question_words_spec(
                    f.take(n),
                ))
            }
        }),
{
    let r = replace_english_punctuation_spec(s);
    lemma_trim_end_len_bound(s);
    lemma_replace_keeps_trim_len(s);
    lemma_trim_end_len_bound(r);
    lemma_fix_prefix(s);
    let n = trim_end_len(s) as int;
    let f = fix_punctuation_spec(s);
    if n > 0 {
        assert(f.take(n) =~= trim_end_spec(r));
    } else {
        assert(trim_end_spec(r) =~= Seq::<char>::empty());
    }
}

/// Whether `ch` lies in one of the CJK ranges.
pub fn is_cjk(ch: char) -> (r: bool)
    ensures
        r == is_cjk_spec(ch),
{
    let cp = ch as u32;
    (0x4E00 <= cp && cp <= 0x9FFF) || (0x3400 <= cp && cp <= 0x4DBF) || (0x2E80 <= cp && cp
        <= 0x2EFF) || (0x3000 <= cp && cp <= 0x303F) || (0xFF00 <= cp && cp <= 0xFFEF) || (0xF900
        <= cp && cp <= 0xFAFF)
}

/// Whether `ch` already closes a sentence.
pub fn is_ending_punctuation(ch: char) -> (r: bool)
    ensures
        r == is_ending_punctuation_spec(ch),
{
    ch == '.' || ch == '\u{3002}' || ch == '?' || ch == '\u{FF1F}' || ch == '!' || ch == '\u{FF01}'
        || ch == '\u{2026}' || ch == '"' || ch == '\u{201D}' || ch == '\u{300D}'
}

fn to_chinese_equivalent(ch: char) -> (r: char)
    ensures
        r == chinese_equivalent(ch),
{
    match ch {
        ',' => '\u{FF0C}',
        '.' => '\u{3002}',
        '?' => '\u{FF1F}',
        '!' => '\u{FF01}',
        ':' => '\u{FF1A}',
        ';' => '\u{FF1B}',
        '(' => '\u{FF08}',
        ')' => '\u{FF09}',
        _ => ch,
    }
}

/// Replaces English punctuation next to CJK characters with its Chinese equivalent.
pub fn replace_english_punctuation(chars: &Vec<char>) -> (r: Vec<char>)
    ensures
        r@ == replace_english_punctuation_spec(chars@),
        r@.len() == chars@.len(),
        forall|i: int|
            #![trigger r@[i]]
            0 <= i < chars@.len() && is_ascii_mark(chars@[i]) && ((i > 0 && is_cjk_spec(
                chars@[i - 1],
            )) || (i + 1 < chars@.len() && is_cjk_spec(chars@[i + 1]))) ==> is_full_width_of(
                chars@[i],
                r@[i],
            ),
        forall|i: int|
            #![trigger r@[i]]
            0 <= i < chars@.len() && !(is_ascii_mark(chars@[i]) && ((i > 0 && is_cjk_spec(
                chars@[i - 1],
            )) || (i + 1 < chars@.len() && is_cjk_spec(chars@[i + 1])))) ==> r@[i] == chars@[i],
{
    proof {
        lemma_replace_marks(chars@);
    }
    let mut result: Vec<char> = Vec::new();
    let n = chars.len();
    for i in 0..n
        invariant
            n == chars@.len(),
            result@.len() == i,
            forall|j: int| 0 <= j < i ==> #[trigger] result@[j] == replace_english_punctuation_spec(chars@)[j],
    {
        let prev_is_cjk = i > 0 && is_cjk(chars[i - 1]);
        let next_is_cjk = i + 1 < n && is_cjk(chars[i + 1]);
        let ch = chars[i];
        if prev_is_cjk || next_is_cjk {
            result.push(to_chinese_equivalent(ch));
        } else {
            result.push(ch);
        }
    }
    assert(result@ =~= replace_english_punctuation_spec(chars@));
    result
}

fn question_word_list() -> (r: Vec<Vec<char>>)
    ensures
        r@.len() == question_words().len(),
        forall|k: int| 0 <= k < r@.len() ==> (#[trigger] r@[k])@ == question_words()[k],
{
    let r = vec![
        chars_of("吗"),
        chars_of("呢"),
        chars_of("么"),
        chars_of("什么"),
        chars_of("怎么"),
        chars_of("为什么"),
        chars_of("哪"),
        chars_of("哪里"),
        chars_of("哪个"),
        chars_of("几"),
        chars_of("多少"),
        chars_of("是否"),
        chars_of("能否"),
        chars_of("可否"),
        chars_of("是不是"),
        chars_of("对不对"),
        chars_of("好不好"),
    ];
    r
}

/// Whether some question word occurs in `text`.
pub fn contains_question_words(text: &Vec<char>) -> (r: bool)
    ensures
        r == contains_question_words_spec(text@),
{
    let words = question_word_list();
    let n = words.len();
    for k in 0..n
        invariant
            n == words@.len(),
            words@.len() == question_words().len(),
            forall|j: int| 0 <= j < words@.len() ==> (#[trigger] words@[j])@ == question_words()[j],
            forall|j: int| 0 <= j < k ==> !contains_spec(text@, #[trigger] question_words()[j]),
    {
        if contains_chars(text, &words[k]) {
            assert(contains_spec(text@, question_words()[k as int]));
            return true;
        }
    }
    false
}

/// Removes trailing whitespace and closes the sentence with `.`/`?` (or their full-width
/// forms after a CJK character) unless it already ends with a closing mark.
pub fn ensure_ending_punctuation(chars: &Vec<char>) -> (r: Vec<char>)
    ensures
        r@ == ensure_ending_punctuation_spec(chars@),
{
    let mut trimmed = trim_end_chars(chars);
    if trimmed.len() == 0 {
        return chars.clone();
    }
    let last_char = trimmed[trimmed.len() - 1];
    if is_ending_punctuation(last_char) {
        return trimmed;
    }
    let is_question = contains_question_words(&trimmed);
    let last_is_cjk = is_cjk(last_char);
    let mark = if is_question {
        if last_is_cjk {
            '\u{FF1F}'
        } else {
            '?'
        }
    } else {
        if last_is_cjk {
            '\u{3002}'
        } else {
            '.'
        }
    };
    trimmed.push(mark);
    trimmed
}

/// Post-processes transcribed text: English punctuation next to Chinese characters
/// becomes full-width, and the text is closed with a sentence mark.
pub fn fix_punctuation(text: &str) -> (r: String)
    ensures
        r@ == fix_punctuation_spec(text@),
        // text with any non-whitespace character ends with a closing mark
        trim_end_len(text@) > 0 ==> r@.len() > 0 && is_ending_punctuation_spec(r@.last()),
        // text without CJK characters keeps its own punctuation
        (forall|i: int| 0 <= i < text@.len() ==> !is_cjk_spec(#[trigger] text@[i])) ==> r@ == (
        if trim_end_len(text@) == 0 {
            text@
        } else if is_ending_punctuation_spec(trim_end_spec(text@).last()) {
            trim_end_spec(text@)
        } else {
            trim_end_spec(text@).push('.')
        }),
        // up to the trailing whitespace, each ASCII mark next to a CJK character (on
        // either side) is full-width and every other character is kept
        forall|i: int|
            #![trigger r@[i]]
            0 <= i < trim_end_len(text@) && is_ascii_mark(text@[i]) && ((i > 0 && is_cjk_spec(
                text@[i - 1],
            )) || (i + 1 < text@.len() && is_cjk_spec(text@[i + 1]))) ==> is_full_width_of(
                text@[i],
                r@[i],
            ),
        forall|i: int|
            #![trigger r@[i]]
            0 <= i < trim_end_len(text@) && !(is_ascii_mark(text@[i]) && ((i > 0 && is_cjk_spec(
                text@[i - 1],
            )) || (i + 1 < text@.len() && is_cjk_spec(text@[i + 1])))) ==> r@[i] == text@[i],
        // closing: none after a closing mark, otherwise one mark, full-width exactly
        // after a CJK character, a question mark exactly when a question word occurs
        text@.len() > 0 && trim_end_len(text@) == 0 ==> r@ == text@,
        trim_end_len(text@) > 0 && is_ending_punctuation_spec(r@[trim_end_len(text@) - 1])
            ==> r@.len() == trim_end_len(text@),
        trim_end_len(text@) > 0 && !is_ending_punctuation_spec(r@[trim_end_len(text@) - 1]) ==> {
            let n = trim_end_len(text@) as int;
            &&& r@.len() == n + 1
            &&& (is_cjk_spec(r@[n]) <==> is_cjk_spec(r@[n - 1]))
            &&& ((r@[n] == '?' || r@[n] == '\u{FF1F}') <==> contains_question_words_spec(
                r@.take(n),
            ))
        },
        // an open question is closed with a question mark
        trim_end_len(text@) > 0 && !is_ending_punctuation_spec(trim_end_spec(text@).last())
            && contains_question_words_spec(trim_end_spec(text@)) ==> r@.last() == '?' || r@.last()
            == '\u{FF1F}',
{
    proof {
        lemma_trim_end_len_bound(text@);
        if text@.len() > 0 {
            lemma_fix_prefix(text@);
            lemma_replace_marks(text@);
            lemma_fix_closing(text@);
        }
        if trim_end_len(text@) > 0 {
            lemma_fix_closes(text@);
        }
        if forall|i: int| 0 <= i < text@.len() ==> !is_cjk_spec(#[trigger] text@[i]) {
            lemma_fix_english(text@);
        }
        if trim_end_len(text@) > 0 && !is_ending_punctuation_spec(trim_end_spec(text@).last())
            && contains_question_words_spec(trim_end_spec(text@)) {
            lemma_fix_question(text@);
        }
    }
    let chars = chars_of(text);
    if chars.len() == 0 {
        return String::new();
    }
    let replaced = replace_english_punctuation(&chars);
    let ended = ensure_ending_punctuation(&replaced);
    string_from_chars(&ended)
}

} // verus!
