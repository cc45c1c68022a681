use voiceinput::transcript::filter_hallucinations;

#[test]
fn hallucinations_are_dropped() {
    assert_eq!(filter_hallucinations("[BLANK_AUDIO]"), "");
    assert_eq!(filter_hallucinations("  谢谢观看  "), "");
    assert_eq!(filter_hallucinations("Thanks for watching!"), "");
    assert_eq!(filter_hallucinations("ご視聴ありがとうございました"), "");
}

#[test]
fn clean_text_is_trimmed() {
    assert_eq!(filter_hallucinations("  你好世界 \n"), "你好世界");
    assert_eq!(filter_hallucinations("hello"), "hello");
    assert_eq!(filter_hallucinations("   "), "");
}

#[test]
fn filtering_twice_changes_nothing() {
    for s in ["  a b  ", "(music) x", "", "订阅我们"] {
        let once = filter_hallucinations(s);
        assert_eq!(filter_hallucinations(&once), once);
    }
}
