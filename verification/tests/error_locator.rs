use aegis_lsp_core::locator::error_line;

#[test]
fn line_marker_returns_six() {
    assert_eq!(error_line(b"Syntax error (Line 7)"), 6);
}

#[test]
fn ligne_marker_returns_zero() {
    assert_eq!(error_line(b"[Ligne 1] Erreur de syntaxe"), 0);
}

#[test]
fn no_marker_returns_zero() {
    assert_eq!(error_line(b"something went wrong"), 0);
}

#[test]
fn line_zero_saturates() {
    assert_eq!(error_line(b"odd message (Line 0)"), 0);
}

#[test]
fn ligne_marker_larger_number() {
    assert_eq!(error_line(b"[Ligne 12] Erreur"), 11);
}

#[test]
fn unterminated_paren_marker_returns_zero() {
    assert_eq!(error_line(b"Expect ']' (Line 7"), 0);
}

#[test]
fn unterminated_bracket_marker_returns_zero() {
    assert_eq!(error_line(b"[Ligne 7 Erreur"), 0);
}

#[test]
fn non_numeric_marker_returns_zero() {
    assert_eq!(error_line(b"Expect '(' (Line x)"), 0);
}

#[test]
fn empty_number_returns_zero() {
    assert_eq!(error_line(b"Expect '(' (Line )"), 0);
}

#[test]
fn first_paren_marker_wins() {
    assert_eq!(error_line(b"(Line 3) but also (Line 9)"), 2);
}

#[test]
fn paren_marker_has_priority_over_bracket() {
    // "[Ligne " comes first in the text, but "(Line " is scanned for first.
    assert_eq!(error_line(b"[Ligne 5] and (Line 3)"), 2);
}

#[test]
fn overflowing_number_returns_zero() {
    assert_eq!(error_line(b"(Line 4294967296)"), 0);
}

#[test]
fn largest_number_is_kept() {
    assert_eq!(error_line(b"(Line 4294967295)"), 4294967294);
}

#[test]
fn plus_sign_is_accepted() {
    // u32 parsing admits a leading plus sign.
    assert_eq!(error_line(b"(Line +7)"), 6);
}

#[test]
fn empty_message_returns_zero() {
    assert_eq!(error_line(b""), 0);
}
