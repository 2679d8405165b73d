use chat_room::messages::{
    compose_message, truncate, truncate_author_and_content_strings, AUTHOR_MAX_CHARS,
    CONTENT_MAX_CHARS,
};

fn cut(author: &str, content: &str) -> (String, String) {
    let mut author = author.to_string();
    let mut content = content.to_string();
    truncate_author_and_content_strings(&mut author, &mut content);
    (author, content)
}

#[test]
fn limits_are_thirty_and_two_hundred_eighty() {
    assert_eq!(AUTHOR_MAX_CHARS, 30);
    assert_eq!(CONTENT_MAX_CHARS, 280);
}

#[test]
fn truncate_returns_the_first_characters() {
    let mut s = "hello world".to_string();
    assert_eq!(truncate(&mut s, 5), "hello");
}

#[test]
fn truncate_leaves_its_argument_alone() {
    let mut s = "hello world".to_string();
    let _ = truncate(&mut s, 5);
    assert_eq!(s, "hello world");
}

#[test]
fn truncate_returns_a_short_text_whole() {
    let mut s = "hi".to_string();
    assert_eq!(truncate(&mut s, 5), "hi");
    assert_eq!(truncate(&mut s, 2), "hi");
}

#[test]
fn truncate_to_nothing() {
    let mut s = "hi".to_string();
    assert_eq!(truncate(&mut s, 0), "");
    let mut empty = String::new();
    assert_eq!(truncate(&mut empty, 0), "");
    assert_eq!(truncate(&mut empty, 3), "");
}

#[test]
fn truncate_counts_characters_not_bytes() {
    let mut s = "äöüß€".to_string();
    assert_eq!(truncate(&mut s, 3), "äöü");
    assert_eq!(truncate(&mut s, 4), "äöüß");
    assert_eq!(truncate(&mut s, 5), "äöüß€");
}

#[test]
fn author_of_thirty_characters_is_unmodified() {
    let author = "a".repeat(30);
    let (cut_author, _) = cut(&author, "hi");
    assert_eq!(cut_author, author);
}

#[test]
fn author_of_thirty_one_characters_is_cut_and_marked() {
    let author = format!("{}b", "a".repeat(30));
    let (cut_author, _) = cut(&author, "hi");
    assert_eq!(cut_author, format!("{}...", "a".repeat(30)));
    assert_eq!(cut_author.chars().count(), 33);
}

#[test]
fn content_of_two_hundred_eighty_characters_is_unmodified() {
    let content = "c".repeat(280);
    let (_, cut_content) = cut("a", &content);
    assert_eq!(cut_content, content);
}

#[test]
fn content_of_two_hundred_eighty_one_characters_is_cut_and_marked() {
    let content = format!("{}d", "c".repeat(280));
    let (_, cut_content) = cut("a", &content);
    assert_eq!(cut_content, format!("{}...", "c".repeat(280)));
}

#[test]
fn author_and_content_are_cut_independently() {
    let long_author = "a".repeat(40);
    let (author, content) = cut(&long_author, "short");
    assert_eq!(author, format!("{}...", "a".repeat(30)));
    assert_eq!(content, "short");
    let long_content = "c".repeat(300);
    let (author, content) = cut("short", &long_content);
    assert_eq!(author, "short");
    assert_eq!(content, format!("{}...", "c".repeat(280)));
}

#[test]
fn thirty_wide_characters_are_unmodified() {
    let author = "é".repeat(30);
    assert!(author.len() > 30);
    let (cut_author, _) = cut(&author, "hi");
    assert_eq!(cut_author, author);
}

#[test]
fn thirty_one_wide_characters_are_cut_at_a_character() {
    let author = "é".repeat(31);
    let (cut_author, _) = cut(&author, "hi");
    assert_eq!(cut_author, format!("{}...", "é".repeat(30)));
}

#[test]
fn empty_texts_stay_empty() {
    let (author, content) = cut("", "");
    assert_eq!(author, "");
    assert_eq!(content, "");
    let message = compose_message(String::new(), String::new());
    assert_eq!(message.author, "");
    assert_eq!(message.content, "");
}

#[test]
fn plain_text_is_composed_verbatim() {
    let message = compose_message("alice".to_string(), "hello,world!".to_string());
    assert_eq!(message.author, "alice");
    assert_eq!(message.content, "hello,world!");
}

#[test]
fn markup_is_escaped() {
    let message =
        compose_message("<b>bob</b>".to_string(), "<script>alert(1)</script>".to_string());
    assert_eq!(message.author, "&lt;b&gt;bob&lt;&#47;b&gt;");
    assert_eq!(message.content, "&lt;script&gt;alert(1)&lt;&#47;script&gt;");
}

#[test]
fn each_special_character_has_its_reference() {
    let table = [
        ("<", "&lt;"),
        (">", "&gt;"),
        ("\"", "&quot;"),
        ("'", "&apos;"),
        ("`", "&grave;"),
        ("/", "&#47;"),
        ("&", "&amp;"),
        ("=", "&#61;"),
        (" ", "&#32;"),
        ("\t", "&#9;"),
        ("\n", "&#10;"),
        ("\x0c", "&#12;"),
        ("\r", "&#13;"),
        ("\0", "&#65533;"),
    ];
    for (raw, reference) in table {
        let message = compose_message(raw.to_string(), format!("x{}y", raw));
        assert_eq!(message.author, reference);
        assert_eq!(message.content, format!("x{}y", reference));
    }
}

#[test]
fn escaped_text_holds_no_active_character() {
    let hostile = "<img src=x onerror='alert(`1`)'>\t\"a\" & b/c\r\n\x0c\0 end";
    let message = compose_message("eve".to_string(), hostile.to_string());
    for c in message.content.chars() {
        assert!(!"<>\"'`/= \t\n\x0c\r\0".contains(c), "found {:?}", c);
    }
}

#[test]
fn plain_stretches_survive_between_markup() {
    let message = compose_message("eve".to_string(), "<i>plain-text_123</i>".to_string());
    assert_eq!(message.content, "&lt;i&gt;plain-text_123&lt;&#47;i&gt;");
    assert!(message.content.contains("plain-text_123"));
}

#[test]
fn characters_beyond_ascii_pass_through() {
    let message = compose_message("zoë".to_string(), "naïve→日本語".to_string());
    assert_eq!(message.author, "zoë");
    assert_eq!(message.content, "naïve→日本語");
}

#[test]
fn text_is_cut_before_it_is_escaped() {
    let author = "<".repeat(31);
    let message = compose_message(author, "hi".to_string());
    assert_eq!(message.author, format!("{}...", "&lt;".repeat(30)));
}

#[test]
fn the_ellipsis_is_not_escaped_away() {
    let content = "c".repeat(281);
    let message = compose_message("a".to_string(), content);
    assert_eq!(message.content, format!("{}...", "c".repeat(280)));
}
