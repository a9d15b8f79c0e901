use shine_helper::keyword::{
    contains_end_word, fuzzy_match_keyword, fuzzy_match_lowercased, levenshtein_distance,
};

#[test]
fn exact_wake_word_matches() {
    assert!(fuzzy_match_keyword("小 Shine", "小 Shine"));
    assert!(fuzzy_match_keyword("  小 SHINE ", "小 Shine"));
}

#[test]
fn blank_input_never_matches() {
    assert!(!fuzzy_match_keyword("", "小 Shine"));
    assert!(!fuzzy_match_keyword("  \t\n", "小 Shine"));
    assert!(!fuzzy_match_keyword("", ""));
}

#[test]
fn containment_matches_both_ways() {
    assert!(fuzzy_match_keyword("你好小 shine 在吗", "小 Shine"));
    assert!(fuzzy_match_keyword("shine", "小 Shine"));
    assert!(fuzzy_match_keyword("anything", ""));
}

#[test]
fn pinyin_variants_match() {
    assert!(fuzzy_match_keyword("小晒", "小 Shine"));
    assert!(fuzzy_match_keyword("小 shai", "小 Shine"));
    assert!(fuzzy_match_keyword("shai", "shine"));
    assert!(fuzzy_match_keyword("嗯晒", "shine"));
}

#[test]
fn near_misses_match_by_edit_distance() {
    assert!(fuzzy_match_keyword("shime", "shine"));
    assert!(fuzzy_match_keyword("xiao shien", "xiao shine"));
    assert!(!fuzzy_match_keyword("abc", "xyz"));
    assert!(!fuzzy_match_keyword("ab", "ac"));
}

#[test]
fn lowercased_variant_takes_case_as_given() {
    assert!(!fuzzy_match_lowercased("SHINE", "shine x"));
    assert!(fuzzy_match_lowercased("shine", "shine x"));
}

#[test]
fn levenshtein_values() {
    assert_eq!(levenshtein_distance("kitten", "sitting"), 3);
    assert_eq!(levenshtein_distance("", "abc"), 3);
    assert_eq!(levenshtein_distance("abc", ""), 3);
    assert_eq!(levenshtein_distance("晒", "晒"), 0);
    assert_eq!(levenshtein_distance("小晒", "小 晒"), 1);
    assert_eq!(levenshtein_distance("flaw", "lawn"), 2);
    assert_eq!(levenshtein_distance("lawn", "flaw"), 2);
}

#[test]
fn end_words_are_found() {
    let words = vec!["结束".to_string(), "停止".to_string()];
    assert!(contains_end_word("好的，结束吧", &words));
    assert!(contains_end_word("停止", &words));
    assert!(!contains_end_word("继续说", &words));
    assert!(!contains_end_word("结束", &[]));
}

#[test]
fn distance_zero_only_for_equal_texts() {
    assert_eq!(levenshtein_distance("小 shine", "小 shine"), 0);
    assert_eq!(levenshtein_distance("小 shine", "小 shin"), 1);
    assert_eq!(levenshtein_distance("", ""), 0);
    assert!(levenshtein_distance("ab", "ba") > 0);
}

#[test]
fn distance_between_length_difference_and_longer_length() {
    let d = levenshtein_distance("kitten", "sitting");
    assert_eq!(d, 3);
    assert!(d >= 1 && d <= 7);
    assert_eq!(levenshtein_distance("abc", ""), 3);
    assert_eq!(levenshtein_distance("", "晒晒"), 2);
    assert_eq!(levenshtein_distance("abcdef", "abc"), 3);
}

#[test]
fn distance_triangle_inequality() {
    let ac = levenshtein_distance("kitten", "sitting");
    let ab = levenshtein_distance("kitten", "mitten");
    let bc = levenshtein_distance("mitten", "sitting");
    assert!(ac <= ab + bc);
    assert_eq!(levenshtein_distance("abc", "abd") + levenshtein_distance("abd", "xbd"), 2);
    assert_eq!(levenshtein_distance("abc", "xbd"), 2);
}

#[test]
fn surrounding_white_space_never_changes_the_match() {
    for (input, keyword) in [("小 shine", "小 shine"), ("小晒", "小 shine"), ("你好", "小 shine"), ("shin", "shine")] {
        let padded_input = format!(" \t{}\n", input);
        let padded_keyword = format!("  {} \u{3000}", keyword);
        assert_eq!(
            fuzzy_match_lowercased(&padded_input, &padded_keyword),
            fuzzy_match_lowercased(input, keyword)
        );
    }
    assert!(fuzzy_match_keyword(" \t小 SHINE\n", "  小 Shine "));
}
