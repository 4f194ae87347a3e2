//! Tests of the href codec, text escaping and status-line parsing.
use libdav::codec::{quote_href, unquote_href};
use libdav::text::escape_text;
use libdav::xml::parse_statusline;

#[test]
fn test_escape_text() {
    assert_eq!(escape_text("HELLO THERE"), "HELLO THERE");
    assert_eq!(escape_text("HELLO <"), "HELLO &lt;");
    assert_eq!(escape_text("HELLO &lt;"), "HELLO &amp;lt;");
    assert_eq!(escape_text("你吃过了吗？"), "你吃过了吗？");
    assert_eq!(escape_text("a>b"), "a&gt;b");
    assert_eq!(escape_text(""), "");
}

#[test]
fn quote_escapes_reserved_characters() {
    assert_eq!(
        quote_href("/a b:?#[]@!$&'()*+,;=<>"),
        "/a%20b%3A%3F%23%5B%5D%40%21%24%26%27%28%29%2A%2B%2C%3B%3D%3C%3E"
    );
    assert_eq!(quote_href("/plain/path.ics"), "/plain/path.ics");
    assert_eq!(quote_href("ñ"), "%C3%B1");
}

#[test]
fn unquote_decodes_and_rejects_bad_utf8() {
    assert_eq!(
        unquote_href("/a%20b%5B1%5D%40x"),
        Some(String::from("/a b[1]@x"))
    );
    assert_eq!(unquote_href("%C3%B1"), Some(String::from("ñ")));
    // A stray percent sign stands for itself.
    assert_eq!(unquote_href("100%!"), Some(String::from("100%!")));
    // A lone 0xFF byte is not UTF-8.
    assert_eq!(unquote_href("%FF"), None);
}

#[test]
fn reserved_hrefs_round_trip() {
    let hrefs = [
        "/a b:?#[]@!$&'()*+,;=<>",
        "/user/cal item @ home;v=1/",
        "/ñ/日历.ics",
    ];
    let mut i = 0;
    while i < hrefs.len() {
        let quoted = quote_href(hrefs[i]);
        assert_eq!(unquote_href(&quoted), Some(String::from(hrefs[i])));
        i += 1;
    }
}

#[test]
fn statusline_extracts_only_the_code() {
    assert_eq!(parse_statusline("HTTP/1.1 200 OK"), Some(200));
    assert_eq!(parse_statusline("HTTP/1.1 404 Not Found"), Some(404));
    assert_eq!(parse_statusline("HTTP/1.0 301 Moved Permanently"), Some(301));
    assert_eq!(parse_statusline("HTTP/1.1 200"), Some(200));
    assert_eq!(parse_statusline("garbage"), None);
    assert_eq!(parse_statusline("HTTP/1.1 099 Too Low"), None);
    assert_eq!(parse_statusline("HTTP/1.1 20 X"), None);
    assert_eq!(parse_statusline("HTTP/1.1 2000 X"), None);
    assert_eq!(parse_statusline(""), None);
}
