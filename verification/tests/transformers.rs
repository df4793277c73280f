use jsonrpc_usecase::input::transformers::{
    abs, capitalize, clamp, collapse_whitespace, custom, dedup, normalize_nfkc,
    lowercase, normalize_nfc, remove_whitespace, replace, strip_prefix, strip_suffix, titlecase, trim,
    trim_end, trim_start, uppercase,
    truncate,
};

fn applied(text: &str, transform: impl FnOnce(&mut String)) -> String {
    let mut value = text.to_owned();
    transform(&mut value);
    value
}

#[test]
fn truncates_on_character_boundaries() {
    let mut value = "éclair".to_owned();
    truncate::transform(&mut value, 2);
    assert_eq!(value, "éc");
}

#[test]
fn truncate_keeps_short_values_and_composes() {
    assert_eq!(applied("abc", |v| truncate::transform(v, 5)), "abc");
    assert_eq!(applied("abc", |v| truncate::transform(v, 3)), "abc");
    assert_eq!(applied("abc", |v| truncate::transform(v, 0)), "");
    let mut value = "abcdef".to_owned();
    truncate::transform(&mut value, 4);
    truncate::transform(&mut value, 2);
    assert_eq!(value, applied("abcdef", |v| truncate::transform(v, 2)));
}

#[test]
fn trims_unicode_whitespace_at_each_boundary() {
    assert_eq!(applied("\u{3000} \t hello \n", trim_start::transform), "hello \n");
    assert_eq!(applied("\u{3000} \t hello \u{a0}\n", trim_end::transform), "\u{3000} \t hello");
    assert_eq!(applied("   ", trim_start::transform), "");
    assert_eq!(applied("   ", trim_end::transform), "");
    let once = applied("  x ", trim_start::transform);
    assert_eq!(applied(&once, trim_start::transform), once);
}

#[test]
fn collapses_whitespace_runs() {
    assert_eq!(applied("  hello \t\n  world  ", collapse_whitespace::transform), "hello world");
    assert_eq!(applied("a\u{2003}b", collapse_whitespace::transform), "a b");
    assert_eq!(applied(" \t ", collapse_whitespace::transform), "");
    let once = applied(" a  b   c ", collapse_whitespace::transform);
    assert_eq!(once, "a b c");
    assert_eq!(applied(&once, collapse_whitespace::transform), once);
}

#[test]
fn removes_all_whitespace() {
    assert_eq!(applied(" a b\tc\u{85}d ", remove_whitespace::transform), "abcd");
    assert_eq!(applied("abc", remove_whitespace::transform), "abc");
}

#[test]
fn capitalizes_the_first_character() {
    assert_eq!(applied("hello world", capitalize::transform), "Hello world");
    assert_eq!(applied("ßtraße", capitalize::transform), "SStraße");
    assert_eq!(applied("", capitalize::transform), "");
}

#[test]
fn titlecases_each_word() {
    assert_eq!(applied("hello WORLD", titlecase::transform), "Hello World");
    assert_eq!(applied("  mIxEd\tcase", titlecase::transform), "  Mixed\tCase");
    assert_eq!(applied("", titlecase::transform), "");
}

#[test]
fn replaces_every_occurrence() {
    assert_eq!(applied("a-b-c", |v| replace::transform(v, "-", "+")), "a+b+c");
    assert_eq!(applied("aaa", |v| replace::transform(v, "aa", "b")), "ba");
    assert_eq!(applied("abc", |v| replace::transform(v, "", "x")), "xaxbxcx");
    assert_eq!(applied("", |v| replace::transform(v, "", "x")), "x");
    assert_eq!(applied("abc", |v| replace::transform(v, "zz", "y")), "abc");
    assert_eq!(applied("abab", |v| replace::transform(v, "ab", "ab")), "abab");
}

#[test]
fn strips_one_prefix_or_suffix() {
    assert_eq!(applied("prefix-value", |v| strip_prefix::transform(v, "prefix-")), "value");
    assert_eq!(applied("aab", |v| strip_prefix::transform(v, "a")), "ab");
    assert_eq!(applied("value", |v| strip_prefix::transform(v, "x")), "value");
    assert_eq!(applied("a", |v| strip_prefix::transform(v, "ab")), "a");
    assert_eq!(applied("file.txt.txt", |v| strip_suffix::transform(v, ".txt")), "file.txt");
    assert_eq!(applied("file", |v| strip_suffix::transform(v, ".txt")), "file");
}

#[test]
fn normalizes_to_nfkc() {
    assert_eq!(applied("\u{fb01}", normalize_nfkc::transform), "fi");
    assert_eq!(applied("e\u{301}", normalize_nfkc::transform), "\u{e9}");
    assert_eq!(applied("plain", normalize_nfkc::transform), "plain");
}

#[test]
fn absolute_value_saturates() {
    let mut value: i32 = -5;
    abs::transform(&mut value);
    assert_eq!(value, 5);
    let mut minimum = i8::MIN;
    abs::transform(&mut minimum);
    assert_eq!(minimum, i8::MAX);
    let mut positive: i64 = 7;
    abs::transform(&mut positive);
    assert_eq!(positive, 7);
}

#[test]
fn clamps_into_range() {
    let mut low = -3;
    clamp::transform(&mut low, 0, 10);
    assert_eq!(low, 0);
    let mut high = 42;
    clamp::transform(&mut high, 0, 10);
    assert_eq!(high, 10);
    let mut inside = 5;
    clamp::transform(&mut inside, 0, 10);
    assert_eq!(inside, 5);
}

#[test]
fn dedup_removes_consecutive_duplicates() {
    let mut tags = vec!["a", "a", "b", "a", "a", "c"];
    dedup::transform(&mut tags);
    assert_eq!(tags, vec!["a", "b", "a", "c"]);
    let mut empty: Vec<i32> = Vec::new();
    dedup::transform(&mut empty);
    assert!(empty.is_empty());
}

#[test]
fn custom_transform_runs_the_closure() {
    let mut value = 3;
    custom::transform(&mut value, |number: &mut i32| *number *= 4);
    assert_eq!(value, 12);
}

#[test]
fn trims_both_boundaries() {
    assert_eq!(applied("\u{3000} hello world \n\t", trim::transform), "hello world");
    assert_eq!(applied("   ", trim::transform), "");
    assert_eq!(applied("no-space", trim::transform), "no-space");
    let once = applied("  twice  ", trim::transform);
    assert_eq!(applied(&once, trim::transform), once);
}

#[test]
fn converts_unicode_case() {
    assert_eq!(applied("ÀB Straße", lowercase::transform), "àb straße");
    assert_eq!(applied("ὈΔΥΣΣΕΎΣ", lowercase::transform), "ὀδυσσεύς");
    assert_eq!(applied("straße", uppercase::transform), "STRASSE");
    assert_eq!(applied("abc", uppercase::transform), "ABC");
}

#[test]
fn normalizes_to_nfc() {
    assert_eq!(applied("e\u{301}", normalize_nfc::transform), "\u{e9}");
    assert_eq!(applied("\u{fb01}", normalize_nfc::transform), "\u{fb01}");
}
