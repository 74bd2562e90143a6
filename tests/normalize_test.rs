use proffer::norm_whitespace;

#[test]
fn norm_whitespace_trims_and_drops_blank_lines() {
    assert_eq!(norm_whitespace("  a  \n\n\t b\t\n   \n"), "a\nb");
    assert_eq!(norm_whitespace(""), "");
    assert_eq!(norm_whitespace(" \n \t \n"), "");
    assert_eq!(norm_whitespace("x"), "x");
    assert_eq!(norm_whitespace("\r\n a b \r\n"), "a b");
}

#[test]
fn norm_whitespace_unicode_spaces() {
    assert_eq!(norm_whitespace("\u{3000}wide\u{00A0}\n\u{2003}em"), "wide\nem");
    assert_eq!(norm_whitespace("\u{e9} \n \u{fc}"), "\u{e9}\n\u{fc}");
}
