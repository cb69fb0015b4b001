use price_fetcher::text::{join_with, split_on, str_eq};

#[test]
fn split_cuts_at_every_separator() {
    assert_eq!(split_on("AAPL,TSLA,MSFT", ','), vec!["AAPL", "TSLA", "MSFT"]);
    assert_eq!(split_on("AAPL", ','), vec!["AAPL"]);
    assert_eq!(split_on("", ','), vec![""]);
    assert_eq!(split_on(",", ','), vec!["", ""]);
    assert_eq!(split_on("a,,b,", ','), vec!["a", "", "b", ""]);
    assert_eq!(split_on(",a", ','), vec!["", "a"]);
}

#[test]
fn split_agrees_with_the_standard_library() {
    for text in ["x", "a,b", ",,", "\u{e9}t\u{e9},\u{4e2d}\u{6587},\u{1F600}", " a , b ", "a;b,c"] {
        let expected: Vec<&str> = text.split(',').collect();
        assert_eq!(split_on(text, ','), expected);
    }
}

#[test]
fn join_puts_the_separator_between_neighbours() {
    let none: Vec<String> = vec![];
    assert_eq!(join_with(&none, ", "), "");
    assert_eq!(join_with(&vec!["a".to_string()], ", "), "a");
    assert_eq!(join_with(&vec!["a".to_string(), "b".to_string(), "c".to_string()], ", "), "a, b, c");
    assert_eq!(join_with(&vec!["".to_string(), "".to_string()], "-"), "-");
}

#[test]
fn joining_a_split_gives_the_text_back() {
    for text in ["", ",", "a,b,,c", "no separator", "\u{4e2d},\u{6587}"] {
        let pieces: Vec<String> = split_on(text, ',').into_iter().map(|p| p.to_string()).collect();
        assert_eq!(join_with(&pieces, ","), text);
        for piece in &pieces {
            assert!(!piece.contains(','));
        }
    }
}

#[test]
fn str_eq_compares_characters() {
    assert!(str_eq("", ""));
    assert!(str_eq("mock", "mock"));
    assert!(!str_eq("mock", "Mock"));
    assert!(!str_eq("mock", "mocks"));
    assert!(!str_eq("mock", "moc"));
    assert!(str_eq("\u{e9}", "\u{e9}"));
    assert!(!str_eq("\u{e9}", "e"));
}
