use vstd::prelude::*;

use crate::text::{
    chars_of, contains_chars, contains_spec, lemma_trim_idempotent, occurs_at, string_from_chars,
    trim_chars, trim_spec,
};

verus! {

/// Phrases that the speech model produces on silence or noise.
pub open spec fn hallucination_patterns() -> Seq<Seq<char>> {
    seq![
        "[BLANK_AUDIO]"@,
        "(music)"@,
        "(Music)"@,
        "[音乐]"@,
        "[音樂]"@,
        "(字幕由"@,
        "字幕由"@,
        "请不吝点赞"@,
        "谢谢观看"@,
        "感谢观看"@,
        "订阅"@,
        "Thank you for watching"@,
        "Thanks for watching"@,
        "Subtitles by"@,
        "ご視聴ありがとうございました"@,
    ]
}

/// `t` holds one of the hallucination phrases.
pub open spec fn is_hallucination(t: Seq<char>) -> bool {
    exists|k: int|
        0 <= k < hallucination_patterns().len() && contains_spec(
            t,
            #[trigger] hallucination_patterns()[k],
        )
}

/// The transcription without surrounding whitespace, or nothing when it holds a
/// hallucination phrase.
pub open spec fn filter_hallucinations_spec(s: Seq<char>) -> Seq<char> {
    let t = trim_spec(s);
    if is_hallucination(t) {
        Seq::empty()
    } else {
        t
    }
}

fn hallucination_pattern_list() -> (r: Vec<Vec<char>>)
    ensures
        r@.len() == hallucination_patterns().len(),
        forall|k: int| 0 <= k < r@.len() ==> (#[trigger] r@[k])@ == hallucination_patterns()[k],
{
    let r = vec![
        chars_of("[BLANK_AUDIO]"),
        chars_of("(music)"),
        chars_of("(Music)"),
        chars_of("[音乐]"),
        chars_of("[音樂]"),
        chars_of("(字幕由"),
        chars_of("字幕由"),
        chars_of("请不吝点赞"),
        chars_of("谢谢观看"),
        chars_of("感谢观看"),
        chars_of("订阅"),
        chars_of("Thank you for watching"),
        chars_of("Thanks for watching"),
        chars_of("Subtitles by"),
        chars_of("ご視聴ありがとうございました"),
    ];
    r
}

/// Every hallucination phrase is non-empty.
proof fn lemma_patterns_nonempty()
    ensures
        forall|k: int|
            0 <= k < hallucination_patterns().len() ==> (
            #[trigger] hallucination_patterns()[k]).len() > 0,
{
    reveal_strlit("[BLANK_AUDIO]");
    reveal_strlit("(music)");
    reveal_strlit("(Music)");
    reveal_strlit("[音乐]");
    reveal_strlit("[音樂]");
    reveal_strlit("(字幕由");
    reveal_strlit("字幕由");
    reveal_strlit("请不吝点赞");
    reveal_strlit("谢谢观看");
    reveal_strlit("感谢观看");
    reveal_strlit("订阅");
    reveal_strlit("Thank you for watching");
    reveal_strlit("Thanks for watching");
    reveal_strlit("Subtitles by");
    reveal_strlit("ご視聴ありがとうございました");
}

/// The empty text holds no hallucination phrase.
proof fn lemma_empty_is_clean()
    ensures
        !is_hallucination(Seq::<char>::empty()),
{
    lemma_patterns_nonempty();
    assert forall|k: int| 0 <= k < hallucination_patterns().len() implies !contains_spec(
        Seq::<char>::empty(),
        #[trigger] hallucination_patterns()[k],
    ) by {
        assert forall|i: int| !#[trigger] occurs_at(
            Seq::<char>::empty(),
            hallucination_patterns()[k],
            i,
        ) by {}
    }
}

/// Filtering a filtered transcription changes nothing.
pub proof fn lemma_filter_hallucinations_idempotent(s: Seq<char>)
    ensures
        filter_hallucinations_spec(filter_hallucinations_spec(s)) == filter_hallucinations_spec(s),
{
    lemma_trim_idempotent(s);
    lemma_empty_is_clean();
    let e = Seq::<char>::empty();
    assert(trim_spec(e) =~= e);
}

/// A phrase anywhere in the trimmed text, not only at its start, drops the whole text.
pub proof fn lemma_filter_drops_any_occurrence(s: Seq<char>, k: int, i: int)
    requires
        0 <= k < hallucination_patterns().len(),
        occurs_at(trim_spec(s), hallucination_patterns()[k], i),
    ensures
        filter_hallucinations_spec(s).len() == 0,
{
    assert(contains_spec(trim_spec(s), hallucination_patterns()[k]));
}

/// A trimmed text in which no phrase occurs at any position is kept whole.
pub proof fn lemma_filter_keeps_clean_text(s: Seq<char>)
    requires
        forall|k: int, i: int|
            0 <= k < hallucination_patterns().len() ==> !#[trigger] occurs_at(
                trim_spec(s),
                hallucination_patterns()[k],
                i,
            ),
    ensures
        filter_hallucinations_spec(s) == trim_spec(s),
{
}

/// Trims the transcription and drops it when it holds a known hallucination phrase.
pub fn filter_hallucinations(text: &str) -> (r: String)
    ensures
        r@ == filter_hallucinations_spec(text@),
        r@.len() == 0 || r@ == trim_spec(text@),
        r@.len() > 0 ==> !is_hallucination(r@),
        // a phrase at any position of the trimmed text drops it
        forall|k: int, i: int|
            0 <= k < hallucination_patterns().len() && #[trigger] occurs_at(
                trim_spec(text@),
                hallucination_patterns()[k],
                i,
            ) ==> r@.len() == 0,
        // with no phrase anywhere, the trimmed text is kept
        (forall|k: int, i: int|
            0 <= k < hallucination_patterns().len() ==> !#[trigger] occurs_at(
                trim_spec(text@),
                hallucination_patterns()[k],
                i,
            )) ==> r@ == trim_spec(text@),
{
    proof {
        assert forall|k: int, i: int|
            0 <= k < hallucination_patterns().len() && #[trigger] occurs_at(
                trim_spec(text@),
                hallucination_patterns()[k],
                i,
            ) implies filter_hallucinations_spec(text@).len() == 0 by {
            lemma_filter_drops_any_occurrence(text@, k, i);
        }
        if forall|k: int, i: int|
            0 <= k < hallucination_patterns().len() ==> !#[trigger] occurs_at(
                trim_spec(text@),
                hallucination_patterns()[k],
                i,
            ) {
            lemma_filter_keeps_clean_text(text@);
        }
    }
    let chars = chars_of(text);
    let trimmed = trim_chars(&chars);
    let patterns = hallucination_pattern_list();
    let n = patterns.len();
    for k in 0..n
        invariant
            n == patterns@.len(),
            patterns@.len() == hallucination_patterns().len(),
            forall|j: int|
                0 <= j < patterns@.len() ==> (#[trigger] patterns@[j])@
                    == hallucination_patterns()[j],
            trimmed@ == trim_spec(text@),
            forall|j: int|
                0 <= j < k ==> !contains_spec(trimmed@, #[trigger] hallucination_patterns()[j]),
    {
        if contains_chars(&trimmed, &patterns[k]) {
            assert(contains_spec(trimmed@, hallucination_patterns()[k as int]));
            return String::new();
        }
    }
    string_from_chars(&trimmed)
}

} // verus!
