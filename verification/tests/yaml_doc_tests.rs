use rumbas::updates::{question_actions, YamlChangeAction};
use rumbas::yaml_doc::{files_to_write, update_file};
use rumbas::yaml_text::{path_text_is_safe, yaml_text_is_safe};

fn texts(v: &[&str]) -> Vec<String> {
    v.iter().map(|s| s.to_string()).collect()
}

#[test]
fn edits_are_made_on_the_text() {
    let content = "---\nname: q\nparts:\n  - type: jme\n    minimum_marks: 2\n    marks: 1\n";
    let actions = vec![YamlChangeAction::RemoveFromHash(texts(&["parts[*]", "minimum_marks"]))];
    let out = update_file(content, &actions).unwrap();
    assert!(!out.contains("minimum_marks"));
    assert!(out.contains("marks: 1"));
    assert!(out.contains("name: q"));
}

#[test]
fn renames_and_question_updates_run() {
    let content = "---\nparts:\n  - type: number_entry\n    hint_fraction: true\n";
    let out = update_file(content, &question_actions()).unwrap();
    assert!(out.contains("fractions_must_be_reduced_hint"));
    assert!(!out.contains("hint_fraction"));
}

#[test]
fn edits_with_bad_paths_change_nothing() {
    let content = "---\na: 1\n";
    let actions = vec![YamlChangeAction::RemoveFromHash(Vec::new())];
    assert!(update_file(content, &actions).is_some());
    assert_eq!(update_file(content, &actions), update_file(content, &Vec::new()));
}

#[test]
fn text_that_is_no_yaml_is_not_updated() {
    assert_eq!(update_file("---\na: [1, 2\n", &Vec::new()), None);
}

#[test]
fn files_are_written_all_or_none() {
    assert_eq!(
        files_to_write(vec![Some("a".to_string()), Some("b".to_string())]),
        Ok(texts(&["a", "b"]))
    );
    assert_eq!(files_to_write(vec![Some("a".to_string()), None, None]), Err(2));
    assert_eq!(files_to_write(Vec::new()), Ok(Vec::new()));
}

#[test]
fn block_scalars_that_the_parser_reads_are_kept() {
    let content = "---\nstatement: |\n    Hello\n    World\nparts:\n  - type: jme\n    prompt: >\n      a\n      b\n    minimum_marks: 1\n";
    assert!(yaml_text_is_safe(content));
    let out = update_file(content, &question_actions()).unwrap();
    assert!(out.contains("Hello"));
    assert!(!out.contains("minimum_marks"));
}

#[test]
fn texts_the_parser_fails_on_are_refused() {
    // an indentation digit
    assert!(!yaml_text_is_safe("---\na: |2\n  x\n"));
    assert_eq!(update_file("---\na: |0\n  x\n", &Vec::new()), None);
    // a line of the block shorter than the indentation of its first line
    assert!(!yaml_text_is_safe("---\na: |\n    ab\n  c\n"));
    assert_eq!(update_file("---\na: |\n    ab\n  c\n", &Vec::new()), None);
    // a `|` at the end of an ordinary string starts no block
    assert!(yaml_text_is_safe("---\na: x |\nb: y\n"));
}

#[test]
fn paths_with_huge_indexes_are_not_used() {
    assert!(path_text_is_safe("parts[123456789]"));
    assert!(!path_text_is_safe("parts[1234567890]"));
    let content = "---\na: 1\n";
    let actions =
        vec![YamlChangeAction::RemoveFromHash(texts(&["a[99999999999999999999]"]))];
    assert_eq!(update_file(content, &actions), update_file(content, &Vec::new()));
}
