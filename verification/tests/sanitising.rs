use collabs_code::helper::{_sanitize_email, _trim_string};

#[test]
fn trim_removes_outer_white_space() {
    assert_eq!(_trim_string("  hi there \t\n"), "hi there");
    assert_eq!(_trim_string("plain"), "plain");
    assert_eq!(_trim_string(""), "");
    assert_eq!(_trim_string(" \t\r\n "), "");
}

#[test]
fn trim_uses_unicode_white_space() {
    assert_eq!(_trim_string("\u{3000}x y\u{a0}\u{2029}"), "x y");
    assert_eq!(_trim_string("\u{200b}x"), "\u{200b}x");
}

#[test]
fn trim_agrees_with_std() {
    for s in ["  a  ", "\u{85}b\u{1680}", "c\u{205f}\u{202f}", "\u{2000}\u{200a}"] {
        assert_eq!(_trim_string(s), s.trim());
    }
}

#[test]
fn trim_twice_is_trim_once() {
    let once = _trim_string("\n  word \u{3000}");
    assert_eq!(_trim_string(&once), once);
}

#[test]
fn sanitize_email_trims_and_lowercases() {
    assert_eq!(_sanitize_email("  John.Doe@Example.COM \n"), "john.doe@example.com");
    assert_eq!(_sanitize_email("ÉLODIE@EXAMPLE.FR"), "élodie@example.fr");
}
