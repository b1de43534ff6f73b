use dewey::Component;

#[test]
fn eat_str_empty_yields_end() {
    assert_eq!(Component::eat_str(""), (Component::End, ""));
}

#[test]
fn eat_str_takes_maximal_digit_run() {
    assert_eq!(Component::eat_str("123abc"), (Component::Num(123), "abc"));
}

#[test]
fn eat_str_takes_keyword_before_fallback() {
    assert_eq!(Component::eat_str("alpha2"), (Component::Alpha, "2"));
}

#[test]
fn eat_str_falls_back_to_single_char() {
    assert_eq!(Component::eat_str("x1"), (Component::Char('x'), "1"));
}

#[test]
fn eat_digits_none_without_leading_digit() {
    assert_eq!(Component::eat_digits("a1"), None);
    assert_eq!(Component::eat_digits(""), None);
}

#[test]
fn eat_digits_takes_whole_run() {
    assert_eq!(Component::eat_digits("00701."), Some((Component::Num(701), ".")));
}

#[test]
fn eat_digits_wraps_past_64_bits() {
    // 2^64 wraps to 0; the digit run is still consumed whole.
    assert_eq!(
        Component::eat_digits("18446744073709551616"),
        Some((Component::Num(0), ""))
    );
}

#[test]
fn eat_keyword_recognizes_every_keyword() {
    assert_eq!(Component::eat_keyword(".x"), Some((Component::DashOrDot, "x")));
    assert_eq!(Component::eat_keyword("-x"), Some((Component::DashOrDot, "x")));
    assert_eq!(Component::eat_keyword("alphax"), Some((Component::Alpha, "x")));
    assert_eq!(Component::eat_keyword("betax"), Some((Component::Beta, "x")));
    assert_eq!(Component::eat_keyword("prex"), Some((Component::Pre, "x")));
    assert_eq!(Component::eat_keyword("rcx"), Some((Component::Rc, "x")));
    assert_eq!(Component::eat_keyword("plx"), Some((Component::PatchLevel, "x")));
}

#[test]
fn eat_keyword_none_on_partial_match() {
    assert_eq!(Component::eat_keyword("prx"), None);
    assert_eq!(Component::eat_keyword("alph"), None);
    assert_eq!(Component::eat_keyword(""), None);
}

#[test]
fn eat_plain_char_lowercases_ascii() {
    assert_eq!(Component::eat_plain_char("Z9"), (Component::Char('z'), "9"));
}

#[test]
fn eat_plain_char_keeps_non_ascii() {
    assert_eq!(Component::eat_plain_char("Édition"), (Component::Char('É'), "dition"));
}
