use termchat::bridge::ChatMessage;
use termchat::chatwidget::ChatWidget;

fn msg(author: &str, content: &str) -> ChatMessage {
    ChatMessage {
        author: String::from(author),
        content: String::from(content),
        channel_id: 1,
    }
}

#[test]
fn render_is_deterministic() {
    let messages = vec![msg("ann", "hello there"), msg("bob", "hi")];
    let first = ChatWidget::new().scroll(1).draw(&messages, 4, 7);
    let second = ChatWidget::new().scroll(1).draw(&messages, 4, 7);
    assert_eq!(first, second);
}

#[test]
fn wrapping_splits_at_width() {
    let messages = vec![msg("ab", "cdef")];
    // "ab: cdef" hard-wrapped into 3-character segments
    let lines = ChatWidget::new().draw(&messages, 100, 3);
    assert_eq!(lines, vec!["ab:", " cd", "ef"]);
}

#[test]
fn viewport_shows_tail_of_wrapped_history() {
    // formatted lines of lengths 5, 50 and 5 in a 20-column, 5-row viewport
    let messages = vec![
        msg("a", "bc"),
        msg("a", "ABCDEFGHIJKLMNOPQRSTUVWXYZabcdefghijklmnopqrstu"),
        msg("a", "de"),
    ];
    let lines = ChatWidget::new().draw(&messages, 5, 20);
    assert!(lines.len() <= 3);
    assert_eq!(
        lines,
        vec!["RSTUVWXYZabcdefghijk", "lmnopqrstu", "a: de"]
    );
}

#[test]
fn scrolling_pages_backward() {
    let messages = vec![
        msg("a", "0"),
        msg("a", "1"),
        msg("a", "2"),
        msg("a", "3"),
        msg("a", "4"),
    ];
    // each message is one line; 4 rows leave 2 for messages
    let newest = ChatWidget::new().draw(&messages, 4, 10);
    assert_eq!(newest, vec!["a: 3", "a: 4"]);
    let back = ChatWidget::new().scroll(2).draw(&messages, 4, 10);
    assert_eq!(back, vec!["a: 1", "a: 2"]);
    let oldest = ChatWidget::new().scroll(4).draw(&messages, 4, 10);
    assert_eq!(oldest, vec!["a: 0"]);
    let past = ChatWidget::new().scroll(7).draw(&messages, 4, 10);
    assert!(past.is_empty());
}

#[test]
fn paging_never_skips_toward_newer_lines() {
    let messages: Vec<ChatMessage> = (0..12).map(|i| msg("u", &i.to_string())).collect();
    let mut prev_oldest: Option<String> = None;
    for scroll in [0usize, 3, 6, 9, 12] {
        let lines = ChatWidget::new().scroll(scroll).draw(&messages, 5, 10);
        if let (Some(prev), Some(first)) = (&prev_oldest, lines.first()) {
            let prev_idx: usize = prev[3..].parse().unwrap();
            let idx: usize = first[3..].parse().unwrap();
            assert!(idx <= prev_idx);
        }
        if let Some(first) = lines.first() {
            prev_oldest = Some(first.clone());
        }
    }
}

#[test]
fn degenerate_viewports_show_nothing() {
    let messages = vec![msg("ann", "hello")];
    assert!(ChatWidget::new().draw(&messages, 2, 10).is_empty());
    assert!(ChatWidget::new().draw(&messages, 0, 10).is_empty());
    assert!(ChatWidget::new().draw(&messages, 10, 0).is_empty());
    let none: Vec<ChatMessage> = Vec::new();
    assert!(ChatWidget::new().draw(&none, 10, 10).is_empty());
}

#[test]
fn wrapping_counts_characters_not_bytes() {
    let messages = vec![msg("\u{e9}", "\u{fc}\u{f6}")];
    // "é: üö" is five characters; width 2 splits it into 2+2+1
    let lines = ChatWidget::new().draw(&messages, 100, 2);
    assert_eq!(lines, vec!["\u{e9}:", " \u{fc}", "\u{f6}"]);
}

#[test]
fn wide_viewport_keeps_lines_whole() {
    let messages = vec![msg("ann", "hello"), msg("bob", "hi")];
    let lines = ChatWidget::new().draw(&messages, 10, 80);
    assert_eq!(lines, vec!["ann: hello", "bob: hi"]);
}
