use rumbas::rc::{step_for_version, UpdateStep, Version};
use rumbas::default::DefaultQuestionFileType;
use rumbas::path::{FilePath, RumbasPath};
use rumbas::updates::{
    default_file_actions, exam_actions, part_actions, part_type_actions, part_type_prefixes,
    question_actions, within_all, zero_five_actions, InsertedValue, PartType, YamlChangeAction,
};

fn rumbas_path(s: &str) -> RumbasPath {
    let p = FilePath::from_text(s);
    RumbasPath::create(&p, &p, &FilePath::from_text("")).unwrap()
}

fn texts(v: &[&str]) -> Vec<String> {
    v.iter().map(|s| s.to_string()).collect()
}

#[test]
fn exam_edits_make_picking_strategy_an_object() {
    assert_eq!(
        exam_actions(),
        vec![
            YamlChangeAction::ToObject(
                texts(&["question_groups[*].picking_strategy"]),
                "type".to_string()
            ),
            YamlChangeAction::MoveToSubfield(
                texts(&["question_groups[*]"]),
                "picking_strategy".to_string(),
                texts(&["pick_questions"])
            ),
        ]
    );
}

#[test]
fn within_puts_the_prefix_first() {
    let a = YamlChangeAction::RenameField(texts(&["custom_name"]), "part_name".to_string());
    assert_eq!(
        a.within("parts[*]".to_string()),
        YamlChangeAction::RenameField(texts(&["parts[*]", "custom_name"]), "part_name".to_string())
    );
    let b = YamlChangeAction::RemoveFromHash(texts(&["a", "b"]));
    assert_eq!(
        b.within("c".to_string()).within("d".to_string()),
        YamlChangeAction::RemoveFromHash(texts(&["d", "c", "a", "b"]))
    );
}

#[test]
fn within_all_goes_by_action_then_prefix() {
    let actions = vec![
        YamlChangeAction::RemoveFromHash(texts(&["x"])),
        YamlChangeAction::RemoveFromHash(texts(&["y"])),
    ];
    let prefixes = texts(&["p", "q"]);
    assert_eq!(
        within_all(&actions, &prefixes),
        vec![
            YamlChangeAction::RemoveFromHash(texts(&["p", "x"])),
            YamlChangeAction::RemoveFromHash(texts(&["q", "x"])),
            YamlChangeAction::RemoveFromHash(texts(&["p", "y"])),
            YamlChangeAction::RemoveFromHash(texts(&["q", "y"])),
        ]
    );
    assert_eq!(within_all(&actions, &Vec::new()), Vec::new());
}

#[test]
fn part_type_prefixes_name_the_type() {
    assert_eq!(
        part_type_prefixes(PartType::JME),
        texts(&[
            "parts[*]|type=jme",
            "parts[*]|type=gapfill.gaps[*]|type=jme",
            "parts[*].steps[*]|type=jme"
        ])
    );
    assert_eq!(part_type_prefixes(PartType::GapFill), texts(&["parts[*]|type=gapfill"]));
    assert_eq!(part_type_actions(PartType::Matrix), Vec::new());
    assert_eq!(
        part_type_actions(PartType::PatternMatch),
        vec![YamlChangeAction::RenameField(
            texts(&["partial_credit"]),
            "wrong_case_partial_credit".to_string()
        )]
    );
}

#[test]
fn question_edits_group_variables_first() {
    let q = question_actions();
    // one grouping, ten edits in three places each, five JME edits, one number entry edit and
    // one pattern match edit in three places each
    assert_eq!(q.len(), 1 + 30 + 15 + 3 + 3);
    assert_eq!(
        q[0],
        YamlChangeAction::MoveToMapWithFieldAsKey(
            texts(&[""]),
            "variables".to_string(),
            "group".to_string(),
            "grouped_variables".to_string(),
            texts(&["", "Ungrouped variables"])
        )
    );
    assert_eq!(q[1], YamlChangeAction::RemoveFromHash(texts(&["parts[*]", "minimum_marks"])));
    assert_eq!(
        q[2],
        YamlChangeAction::RemoveFromHash(texts(&["parts[*]|type=gapfill.gaps[*]", "minimum_marks"]))
    );
    assert_eq!(
        q[31],
        YamlChangeAction::MoveToSubfield(
            texts(&["parts[*]|type=jme", ""]),
            "accuracy".to_string(),
            texts(&["answer_check", "failure_rate", "vset_range", "vset_range_points"])
        )
    );
    assert_eq!(
        q[51],
        YamlChangeAction::RenameField(
            texts(&["parts[*].steps[*]|type=pattern_match", "partial_credit"]),
            "wrong_case_partial_credit".to_string()
        )
    );
}

#[test]
fn default_files_get_their_edits() {
    let jme = default_file_actions(
        &DefaultQuestionFileType::QuestionPartGapFillGapJME,
        &rumbas_path("defaults/questionpart.gapfill.gap.jme.yaml"),
    );
    let mut expected = part_actions();
    expected.extend(part_type_actions(PartType::JME));
    assert_eq!(jme.len(), 15);
    assert_eq!(jme, expected);

    let main = default_file_actions(
        &DefaultQuestionFileType::Question,
        &rumbas_path("defaults/question.yaml"),
    );
    assert_eq!(main.len(), 53);
    assert_eq!(
        main[0],
        YamlChangeAction::InsertIntoHash(
            texts(&["grouped_variables"]),
            InsertedValue::Unquoted("none".to_string()),
            false
        )
    );
    assert!(main[1..] == question_actions()[..]);

    let other = default_file_actions(
        &DefaultQuestionFileType::Question,
        &rumbas_path("questions/defaults/question.yaml"),
    );
    assert_eq!(other, question_actions());
}

#[test]
fn zero_five_adds_rulesets_to_the_main_default_question() {
    let expected = vec![YamlChangeAction::InsertIntoHash(
        texts(&["rulesets"]),
        InsertedValue::EmptyHash,
        false,
    )];
    assert_eq!(
        zero_five_actions(&DefaultQuestionFileType::Question, &rumbas_path("./defaults/question.yaml")),
        expected
    );
    assert_eq!(
        zero_five_actions(
            &DefaultQuestionFileType::QuestionPartJME,
            &rumbas_path("./defaults/questionpart.jme.yaml")
        ),
        Vec::new()
    );
    assert_eq!(
        zero_five_actions(&DefaultQuestionFileType::Question, &rumbas_path("other/question.yaml")),
        Vec::new()
    );
}

#[test]
fn updates_end_at_zero_eight() {
    let mut v = Version::new(0, 6, 0);
    let mut seen = Vec::new();
    for _ in 0..5 {
        let next = match step_for_version(&v, Some(false)) {
            UpdateStep::To(n)
            | UpdateStep::ByHandTo(n)
            | UpdateStep::FromZeroFive(n)
            | UpdateStep::FromZeroSevenOne(n) => n,
            _ => break,
        };
        seen.push((next.major, next.minor, next.patch));
        v = next;
    }
    assert_eq!(seen, vec![(0, 6, 3), (0, 7, 0), (0, 7, 1), (0, 8, 0)]);
    assert_eq!(step_for_version(&v, Some(false)), UpdateStep::UpToDate);
}

#[test]
fn only_an_explicit_current_folder_matches_dot_defaults() {
    assert_eq!(
        zero_five_actions(&DefaultQuestionFileType::Question, &rumbas_path("defaults/question.yaml")),
        Vec::new()
    );
}
