use emoji_gen::join_with_spaces;

#[test]
fn join_empty_is_empty_line() {
    assert_eq!(join_with_spaces(&[]), "");
}

#[test]
fn join_single_has_no_space() {
    assert_eq!(join_with_spaces(&["\u{1F600}"]), "\u{1F600}");
}

#[test]
fn join_three_uses_single_spaces() {
    let items = ["\u{1F600}", "\u{1F431}", "\u{1F1EB}\u{1F1F7}"];
    assert_eq!(
        join_with_spaces(&items),
        "\u{1F600} \u{1F431} \u{1F1EB}\u{1F1F7}"
    );
}

#[test]
fn join_keeps_order_and_repeats() {
    assert_eq!(join_with_spaces(&["a", "b", "a"]), "a b a");
}
