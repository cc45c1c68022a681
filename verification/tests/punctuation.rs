use voiceinput::punctuation::{
    contains_question_words, ensure_ending_punctuation, fix_punctuation, is_cjk,
    is_ending_punctuation, replace_english_punctuation,
};

fn chars(s: &str) -> Vec<char> {
    s.chars().collect()
}

#[test]
fn test_english_to_chinese_punctuation() {
    assert_eq!(fix_punctuation("你好,世界"), "你好\u{FF0C}世界\u{3002}");
}

#[test]
fn test_question_detection() {
    let result = fix_punctuation("你好吗");
    assert!(result.ends_with('？'));
}

#[test]
fn test_already_has_punctuation() {
    assert_eq!(fix_punctuation("你好。"), "你好。");
}

#[test]
fn test_empty() {
    assert_eq!(fix_punctuation(""), "");
}

#[test]
fn test_english_text_preserved() {
    let result = fix_punctuation("hello world");
    assert_eq!(result, "hello world.");
}

#[test]
fn english_question_mark_after_latin_letter() {
    // a question word, but the last character is not CJK
    assert_eq!(fix_punctuation("这是什么 abc"), "这是什么 abc?");
}

#[test]
fn trailing_whitespace_is_trimmed_before_closing() {
    assert_eq!(fix_punctuation("你好  \n"), "你好。");
    assert_eq!(fix_punctuation("done!  "), "done!");
}

#[test]
fn whitespace_only_text_is_kept() {
    assert_eq!(fix_punctuation("   "), "   ");
}

#[test]
fn every_mark_is_replaced_in_chinese_context() {
    assert_eq!(
        fix_punctuation("甲,乙.丙?丁!戊:己;庚(辛)"),
        "甲，乙。丙？丁！戊：己；庚（辛）。"
    );
}

#[test]
fn punctuation_between_latin_letters_is_kept() {
    assert_eq!(fix_punctuation("a,b 中文"), "a,b 中文。");
}

#[test]
fn ideographic_space_counts_as_whitespace() {
    assert_eq!(fix_punctuation("你好\u{3000}"), "你好。");
}

#[test]
fn replace_keeps_length() {
    let input = chars("你,a,b");
    let out = replace_english_punctuation(&input);
    assert_eq!(out, chars("你，a,b"));
}

#[test]
fn ensure_ending_on_closed_text() {
    assert_eq!(ensure_ending_punctuation(&chars("好」  ")), chars("好」"));
    assert_eq!(ensure_ending_punctuation(&chars("ok")), chars("ok."));
}

#[test]
fn question_words_found() {
    assert!(contains_question_words(&chars("你在哪里")));
    assert!(contains_question_words(&chars("是不是")));
    assert!(!contains_question_words(&chars("今天天气很好")));
}

#[test]
fn cjk_and_ending_classification() {
    assert!(is_cjk('中'));
    assert!(is_cjk('\u{FF0C}'));
    assert!(!is_cjk('a'));
    assert!(is_ending_punctuation('…'));
    assert!(is_ending_punctuation('\u{201D}'));
    assert!(!is_ending_punctuation(','));
}
