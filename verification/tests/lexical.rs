use grafbase_core::lexical::{compare_text, text_eq, TextOrder};

#[test]
fn compares_like_str_ord() {
    let words = ["", "a", "ab", "b", "Z", "z", "é", "日本", "ab\u{0}"];
    for x in words {
        for y in words {
            let expected = match x.cmp(y) {
                std::cmp::Ordering::Less => TextOrder::Less,
                std::cmp::Ordering::Equal => TextOrder::Equal,
                std::cmp::Ordering::Greater => TextOrder::Greater,
            };
            assert_eq!(compare_text(x, y), expected, "{x:?} vs {y:?}");
            assert_eq!(text_eq(x, y), x == y);
        }
    }
}

#[test]
fn prefix_comes_first_and_bytes_decide() {
    assert_eq!(compare_text("Query", "QueryRoot"), TextOrder::Less);
    assert_eq!(compare_text("é", "z"), TextOrder::Greater);
    assert_eq!(compare_text("Zebra", "apple"), TextOrder::Less);
}
