use libsql_python::sql::{is_dml, is_space_char, starts_with_dml_keyword, trimmed};

#[test]
fn dml_keywords_are_recognised() {
    assert!(is_dml("INSERT INTO t VALUES (1)"));
    assert!(is_dml("UPDATE t SET a = 1"));
    assert!(is_dml("DELETE FROM t"));
}

#[test]
fn other_statements_are_not_dml() {
    assert!(!is_dml("SELECT * FROM t"));
    assert!(!is_dml("CREATE TABLE t (a)"));
    assert!(!is_dml("BEGIN"));
    assert!(!is_dml("REPLACE INTO t VALUES (1)"));
    assert!(!is_dml("-- comment\nINSERT INTO t VALUES (1)"));
}

#[test]
fn classification_ignores_letter_case() {
    assert!(is_dml("insert into t values (1)"));
    assert!(is_dml("InSeRt INTO t VALUES (1)"));
    assert!(is_dml("update t set a = 1"));
    assert!(is_dml("dElEtE from t"));
    assert_eq!(is_dml("select 1"), is_dml("SELECT 1"));
}

#[test]
fn classification_ignores_surrounding_whitespace() {
    assert!(is_dml("   INSERT INTO t VALUES (1)"));
    assert!(is_dml("\n\t\r DELETE FROM t  \n"));
    assert!(is_dml("\u{a0}\u{3000}update t set a = 1\u{2028}"));
    assert!(!is_dml("   SELECT 1   "));
}

#[test]
fn short_or_empty_text_is_not_dml() {
    assert!(!is_dml(""));
    assert!(!is_dml("     "));
    assert!(!is_dml("INSER"));
    assert!(!is_dml(" DELET "));
    assert!(is_dml("INSERT"));
    assert!(is_dml("  delete  "));
}

#[test]
fn keyword_prefix_is_enough() {
    assert!(is_dml("INSERTED"));
    assert!(is_dml("UPDATEx"));
}

#[test]
fn whitespace_follows_the_unicode_property() {
    assert!(is_space_char(' '));
    assert!(is_space_char('\t'));
    assert!(is_space_char('\u{85}'));
    assert!(is_space_char('\u{200a}'));
    assert!(!is_space_char('\u{200b}'));
    assert!(!is_space_char('a'));
    for c in ['\u{0}', 'x', ' ', '\n', '\u{a0}', '\u{1680}', '\u{2007}', '\u{205f}', '\u{feff}'] {
        assert_eq!(is_space_char(c), c.is_whitespace());
    }
}

#[test]
fn upper_casing_follows_unicode() {
    // U+0131 (dotless i) upper-cases to I, and U+017F (long s) to S.
    assert!(is_dml("\u{131}nsert into t values (1)"));
    assert!(is_dml("in\u{17f}ert into t values (1)"));
    assert!(!is_dml("\u{130}nsert into t values (1)"));
}

#[test]
fn upper_cased_text_is_matched_exactly() {
    assert!(starts_with_dml_keyword("INSERT INTO T"));
    assert!(starts_with_dml_keyword("DELETE"));
    assert!(!starts_with_dml_keyword("insert into t"));
    assert!(!starts_with_dml_keyword(" UPDATE T"));
    assert!(!starts_with_dml_keyword("UPDAT"));
}

#[test]
fn trimming_removes_unicode_whitespace() {
    assert_eq!(trimmed("  a b \n"), "a b");
    assert_eq!(trimmed("\u{3000}x\u{a0}"), "x");
    assert_eq!(trimmed("   "), "");
    assert_eq!(trimmed(""), "");
    for s in [" \t SELECT 1 \r\n", "\u{2028}ab\u{85}", "x"] {
        assert_eq!(trimmed(s), s.trim());
    }
}
