use matrix_account::text::strip_reply_fallback;

#[test]
fn quoted_lines_and_blank_line_go() {
    let body = "> <@user:server> quoted text\n> more\n\nActual reply";
    assert_eq!(strip_reply_fallback(body), "Actual reply");
}

#[test]
fn reply_of_several_lines_is_recovered() {
    let body = "> <@a:b> q\n\nfirst\nsecond\n\nfourth";
    assert_eq!(strip_reply_fallback(body), "first\nsecond\n\nfourth");
}

#[test]
fn body_without_fallback_is_kept() {
    assert_eq!(strip_reply_fallback("hello"), "hello");
    assert_eq!(strip_reply_fallback("hello\nworld"), "hello\nworld");
    assert_eq!(strip_reply_fallback(">no space"), ">no space");
    assert_eq!(strip_reply_fallback(">"), ">");
}

#[test]
fn quotes_below_the_reply_are_kept() {
    assert_eq!(strip_reply_fallback("> q\n\nreply\n> kept"), "reply\n> kept");
}

#[test]
fn bare_quotes_are_kept() {
    assert_eq!(strip_reply_fallback("> only\n> quotes"), "> only\n> quotes");
    assert_eq!(strip_reply_fallback("> only\n> quotes\n"), "> only\n> quotes\n");
    assert_eq!(strip_reply_fallback("> q\n\n"), "> q\n\n");
    assert_eq!(strip_reply_fallback("> "), "> ");
}

#[test]
fn empty_bodies_are_kept() {
    assert_eq!(strip_reply_fallback(""), "");
    assert_eq!(strip_reply_fallback("\n"), "\n");
}

#[test]
fn only_one_blank_line_goes() {
    assert_eq!(strip_reply_fallback("> q\n\n\nreply"), "\nreply");
    assert_eq!(strip_reply_fallback("\nreply"), "reply");
    assert_eq!(strip_reply_fallback("> q\nreply"), "reply");
}

#[test]
fn line_endings_become_line_feeds() {
    assert_eq!(strip_reply_fallback("> q\r\n\r\none\r\ntwo\r\n"), "one\ntwo");
    assert_eq!(strip_reply_fallback("> q\n\nreply\n"), "reply");
    assert_eq!(strip_reply_fallback("> q\n\nreply\r"), "reply\r");
    assert_eq!(strip_reply_fallback("one\r\r\ntwo"), "one\r\ntwo");
}

#[test]
fn characters_beyond_ascii_are_kept() {
    assert_eq!(strip_reply_fallback("> \u{fc}ber\n\n\u{1f600} \u{e9}"), "\u{1f600} \u{e9}");
}
