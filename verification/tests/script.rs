use stress_suite::script::{split_raw_statements, split_statements};

#[test]
fn empty_script_has_no_statements() {
    assert_eq!(split_statements(""), Vec::<String>::new());
    assert_eq!(split_raw_statements(""), Vec::<String>::new());
}

#[test]
fn blank_script_has_no_statements() {
    assert_eq!(split_statements("  \n\t "), Vec::<String>::new());
    assert_eq!(split_statements(";;;"), Vec::<String>::new());
    assert_eq!(split_statements(" ; \n ;\t"), Vec::<String>::new());
    assert_eq!(split_raw_statements(" ; \n ;\t"), Vec::<String>::new());
}

#[test]
fn one_statement_without_separator() {
    assert_eq!(split_statements("select 1"), vec!["select 1".to_string()]);
    assert_eq!(split_raw_statements("select 1"), vec!["select 1".to_string()]);
}

#[test]
fn statements_are_split_at_semicolons() {
    assert_eq!(
        split_statements("create table a(c int);create table b(c int);"),
        vec!["create table a(c int)".to_string(), "create table b(c int)".to_string()]
    );
}

#[test]
fn statements_are_trimmed() {
    let script = "\n  drop table if exists t ;\n\n  create table t(c int)\n;\n";
    assert_eq!(
        split_statements(script),
        vec!["drop table if exists t".to_string(), "create table t(c int)".to_string()]
    );
}

#[test]
fn raw_statements_keep_their_white_space() {
    let script = "\n  drop table if exists t ;\n\n  create table t(c int)\n;\n";
    assert_eq!(
        split_raw_statements(script),
        vec!["\n  drop table if exists t ".to_string(), "\n\n  create table t(c int)\n".to_string()]
    );
}

#[test]
fn blank_segments_between_statements_are_skipped() {
    assert_eq!(
        split_statements("a;; ;b;\n;c"),
        vec!["a".to_string(), "b".to_string(), "c".to_string()]
    );
    assert_eq!(
        split_raw_statements("a;; ;b;\n;c"),
        vec!["a".to_string(), "b".to_string(), "c".to_string()]
    );
}

#[test]
fn inner_white_space_is_kept() {
    assert_eq!(
        split_statements("  select  1,\n   2  ;"),
        vec!["select  1,\n   2".to_string()]
    );
}

#[test]
fn single_character_statements() {
    assert_eq!(split_statements("a"), vec!["a".to_string()]);
    assert_eq!(split_statements(" a "), vec!["a".to_string()]);
    assert_eq!(split_statements("a;b"), vec!["a".to_string(), "b".to_string()]);
}

#[test]
fn unicode_white_space_is_trimmed() {
    assert_eq!(split_statements("\u{a0}select 1\u{3000};\u{2003}"), vec!["select 1".to_string()]);
}

#[test]
fn statements_with_other_alphabets() {
    assert_eq!(
        split_statements("select 'é'; select '数据' ;"),
        vec!["select 'é'".to_string(), "select '数据'".to_string()]
    );
}

#[test]
fn splitting_agrees_with_split_and_trim() {
    let scripts = [
        "",
        ";",
        "a",
        " a ; b ;; c",
        "create or replace table base(c int);\ncreate or replace table sink like base;\n",
        "\n\n;x;\t;  y  z ;",
    ];
    for script in scripts {
        let expected: Vec<String> = script
            .split(';')
            .map(|s| s.trim())
            .filter(|s| !s.is_empty())
            .map(|s| s.to_string())
            .collect();
        assert_eq!(split_statements(script), expected);
        let raw: Vec<String> = script
            .split(';')
            .filter(|s| !s.trim().is_empty())
            .map(|s| s.to_string())
            .collect();
        assert_eq!(split_raw_statements(script), raw);
    }
}
