use rumbas::cli::{log_level, Command, LogLevel};
use rumbas::string_map::StringMap;
use rumbas::choose_one::ChooseOneDisplay;
use rumbas::input::Input;
use rumbas::input_check::InputCheckResult;
use rumbas::jme::{JMEString, ReverseVariableValued, VariableValued};
use rumbas::jme_part::{JMEAnswerSimplification, JMENote, JMENotes};
use rumbas::matrix::{QuestionPartMatrixDimension, QuestionPartMatrixDimensions};
use rumbas::noneable::Noneable;
use rumbas::overwrite::Overwrite;
use rumbas::to_rumbas::ToRumbas;
use rumbas::translatable::{FileString, TranslatableString};
use rumbas::value::{InvalidYaml, TemplateString, Value, ValueType};
use rumbas::variable::{Variable, VariableTemplateType, VariableToNumbasHelper};

fn size(n: usize) -> ReverseVariableValued<usize> {
    ReverseVariableValued::Value(n)
}

#[test]
fn matrix_dimension_from_range() {
    let fixed = QuestionPartMatrixDimension::from_range(size(3), size(3), size(3));
    assert_eq!(fixed, QuestionPartMatrixDimension::Fixed(size(3)));
    assert!(!fixed.is_resizable());
    let open = QuestionPartMatrixDimension::from_range(size(1), size(2), size(0));
    assert!(open.is_resizable());
    assert_eq!(open.min(), size(1));
    assert_eq!(open.default(), size(2));
    assert_eq!(open.max(), size(0));
    let bounded = QuestionPartMatrixDimension::from_range(size(1), size(2), size(5));
    assert_eq!(bounded.max(), size(5));
    let dims = QuestionPartMatrixDimensions { rows: fixed, columns: bounded };
    assert!(dims.is_resizable());
}

#[test]
fn matrix_dimension_with_expressions() {
    let v = ReverseVariableValued::Variable(JMEString::new("n"));
    let d = QuestionPartMatrixDimension::from_range(v.clone(), v.clone(), v.clone());
    assert_eq!(d, QuestionPartMatrixDimension::Fixed(v.clone()));
    let w = QuestionPartMatrixDimension::from_range(size(1), v.clone(), v.clone());
    assert!(w.is_resizable());
    assert_eq!(w.max(), v);
}

#[test]
fn choose_one_columns() {
    assert_eq!(ChooseOneDisplay::DropDown.get_nb_columns(), 0);
    assert_eq!(ChooseOneDisplay::Radio { columns: 3 }.get_nb_columns(), 3);
}

#[test]
fn variables() {
    let v = Variable::new(VariableTemplateType::Range, "1 .. 5#1");
    assert_eq!(v.definition.get_content("en"), Some("1 .. 5#1".to_string()));
    assert_eq!(v.description, "");
    assert_eq!(v.template_type, VariableTemplateType::Range);
    let h = VariableToNumbasHelper::ungrouped("x".to_string());
    assert_eq!(format!("{:?}", h), format!("{:?}", VariableToNumbasHelper::with_group("x".to_string(), "Ungrouped variables".to_string())));
}

#[test]
fn variable_valued_map() {
    let v: VariableValued<usize> = VariableValued::Value(2);
    assert_eq!(v.map(|x| x + 1), VariableValued::Value(3));
    let e: VariableValued<usize> = VariableValued::Variable(JMEString::new("x"));
    assert_eq!(e.map(|x| x + 1), VariableValued::Variable(JMEString::new("x")));
}

#[test]
fn missing_values_are_found_with_their_paths() {
    let complete: Value<String> = Value::Normal("a".to_string());
    assert_eq!(complete.to_normal_safe(), Ok("a".to_string()));
    let absent: Value<String> = Value::none();
    let err = absent.to_normal_safe().unwrap_err();
    assert_eq!(err, InputCheckResult::from_missing(None));
    let list: Vec<Value<usize>> = vec![Value::Normal(1), Value::none(), Value::Normal(3)];
    let found = list.find_missing();
    assert_eq!(found.missing_fields().len(), 1);
    assert_eq!(found.missing_fields()[0].to_string(), "1");
    let pair: (Value<bool>, Value<bool>) = (Value::none(), Value::none());
    let paths: Vec<String> = pair.find_missing().missing_fields().iter().map(|m| m.to_string()).collect();
    assert_eq!(paths, vec!["0".to_string(), "1".to_string()]);
}

#[test]
fn templates_and_invalid_values_are_reported() {
    let t: ValueType<usize> = ValueType::Template(TemplateString::from_text("template:size").unwrap());
    let r = t.find_missing();
    assert_eq!(r.missing_fields()[0].to_string(), "template:size");
    let i: ValueType<usize> = ValueType::Invalid(InvalidYaml { yaml: "abc".to_string(), error: Some("not a number".to_string()) });
    let r = i.find_missing();
    assert!(r.missing_fields().is_empty());
    assert_eq!(r.invalid_yaml_fields().len(), 1);
    assert_eq!(r.invalid_yaml_fields()[0].to_string(), "\n With yaml:\nabcWith error: not a number");
}

#[test]
fn from_normal_round_trip() {
    let n: Vec<usize> = vec![1, 2, 3];
    let input = <Vec<Value<usize>>>::from_normal(n.clone());
    assert!(input.find_missing().is_empty());
    assert_eq!(input.to_normal(), n);
    let nn: Noneable<usize> = Noneable::NotNone(4);
    assert_eq!(<Noneable<Value<usize>>>::from_normal(Noneable::NotNone(4)).to_normal(), nn);
}

#[test]
fn overwriting_fills_in_absent_values() {
    let mut a: Value<usize> = Value::none();
    a.overwrite(&Value::Normal(5));
    assert_eq!(a, Value::Normal(5));
    let mut b: Value<usize> = Value::Normal(1);
    b.overwrite(&Value::Normal(5));
    assert_eq!(b, Value::Normal(1));
    let mut c: Value<usize> = Value::Normal(1);
    c.overwrite(&Value::none());
    assert_eq!(c, Value::Normal(1));
    let mut pair: (Value<bool>, Value<bool>) = (Value::none(), Value::Normal(true));
    pair.overwrite(&(Value::Normal(false), Value::Normal(false)));
    assert_eq!(pair, (Value::Normal(false), Value::Normal(true)));
    let mut n: Noneable<Value<usize>> = Noneable::NotNone(Value::none());
    n.overwrite(&Noneable::NotNone(Value::Normal(2)));
    assert_eq!(n, Noneable::NotNone(Value::Normal(2)));
}

#[test]
fn conversions_to_rumbas() {
    let s = "text".to_string();
    let fs: FileString = s.to_rumbas();
    assert_eq!(fs.get_content("any"), Some("text".to_string()));
    let ts: TranslatableString = s.to_rumbas();
    assert_eq!(ts.to_string("nl"), Some("text".to_string()));
    let o: Option<String> = Some("x".to_string());
    let n: Noneable<String> = o.to_rumbas();
    assert_eq!(n, Noneable::NotNone("x".to_string()));
    let none: Option<String> = None;
    let nn: Noneable<String> = none.to_rumbas();
    assert_eq!(nn, Noneable::NoneValue);
    let v: Vec<String> = vec!["a".to_string(), "b".to_string()];
    let w: Vec<String> = v.to_rumbas();
    assert_eq!(w, v);
}

#[test]
fn marking_notes_text() {
    let notes = JMENotes(vec![
        JMENote {
            name: "mark".to_string(),
            description: Noneable::NotNone("the mark".to_string()),
            expression: TranslatableString::NotTranslated(FileString::s("1")),
        },
        JMENote {
            name: "other".to_string(),
            description: Noneable::NoneValue,
            expression: TranslatableString::NotTranslated(FileString::s("x+1")),
        },
    ]);
    assert_eq!(notes.notes_text("en"), "mark(the mark):1\n\nother:x+1");
}

#[test]
fn default_simplification_rules() {
    let d = JMEAnswerSimplification::default();
    assert!(d.simplify_basic);
    assert!(d.collect_like_fractions);
    assert!(!d.order_canonical);
    assert!(!d.expand_brackets);
}

#[test]
fn map_inputs_report_their_keys() {
    let mut m: StringMap<Value<usize>> = StringMap::new();
    m.insert("a".to_string(), Value::Normal(1));
    m.insert("b".to_string(), Value::none());
    let found = m.find_missing();
    assert_eq!(found.missing_fields().len(), 1);
    assert_eq!(found.missing_fields()[0].to_string(), "b");
    m.insert("b".to_string(), Value::Normal(2));
    let n = m.to_normal();
    assert_eq!(n.get("a"), Some(&1));
    assert_eq!(n.get("b"), Some(&2));
    let back = <StringMap<Value<usize>>>::from_normal(n);
    assert!(back.find_missing().is_empty());
}

#[test]
fn text_without_first_and_last() {
    assert_eq!(rumbas::text::remove_first_and_last("'abc'"), "abc");
    assert_eq!(rumbas::text::remove_first_and_last("ab"), "");
    assert_eq!(rumbas::text::remove_first_and_last(""), "");
}

#[test]
fn log_levels_and_old_versions() {
    assert_eq!(log_level(true, 4), LogLevel::Off);
    assert_eq!(log_level(false, 0), LogLevel::Info);
    assert_eq!(log_level(false, 1), LogLevel::Error);
    assert_eq!(log_level(false, 2), LogLevel::Warn);
    assert_eq!(log_level(false, 3), LogLevel::Info);
    assert_eq!(log_level(false, 7), LogLevel::Debug);
    assert!(Command::UpdateRepo.can_execute_in_old_version());
    assert!(Command::Init { summative: true }.can_execute_in_old_version());
    assert!(!Command::Schema.can_execute_in_old_version());
}

#[test]
fn variable_valued_input_and_overwrite() {
    let given: VariableValued<Value<String>> =
        VariableValued::Value(Value(Some(ValueType::Normal("a".to_string()))));
    assert_eq!(given.to_normal_safe(), Ok(VariableValued::Value("a".to_string())));
    let missing: VariableValued<Value<String>> = VariableValued::Value(Value(None));
    assert!(missing.to_normal_safe().is_err());
    let expr: VariableValued<Value<String>> = VariableValued::Variable(JMEString::new("x^2"));
    assert_eq!(expr.to_normal_safe(), Ok(VariableValued::Variable(JMEString::new("x^2"))));
    assert_eq!(
        <VariableValued<Value<String>> as Input>::from_normal(VariableValued::Value("b".to_string())),
        VariableValued::Value(Value(Some(ValueType::Normal("b".to_string()))))
    );

    let mut target = missing;
    target.overwrite(&given);
    assert_eq!(target, VariableValued::Value(Value(Some(ValueType::Normal("a".to_string())))));
    let mut kept: VariableValued<Value<String>> = VariableValued::Variable(JMEString::new("y"));
    kept.overwrite(&given);
    assert_eq!(kept, VariableValued::Variable(JMEString::new("y")));
}

#[test]
fn noneable_defaults_and_maps() {
    let a: Noneable<usize> = Noneable::NoneValue;
    let b: Noneable<usize> = Noneable::NotNone(5);
    assert_eq!(a.unwrap_or_default(), 0);
    assert_eq!(b.unwrap_or_default(), 5);
    let c: Noneable<usize> = Noneable::NotNone(2);
    assert_eq!(c.map(|x| x + 1).map(|y| y * 10), Noneable::NotNone(30));
    let d: Noneable<usize> = Noneable::NoneValue;
    assert_eq!(d.map(|x: usize| x + 1), Noneable::NoneValue);
}

#[test]
fn notes_within_a_bound() {
    let note = JMENote {
        name: "mark".to_string(),
        description: Noneable::NoneValue,
        expression: TranslatableString::NotTranslated(FileString::s("1")),
    };
    assert_eq!(note.note_text_within("en", 0), Some("mark:1".to_string()));
    let missing = JMENote {
        name: "m".to_string(),
        description: Noneable::NoneValue,
        expression: TranslatableString::NotTranslated(FileString {
            file_name: None,
            content: None,
            translated_content: StringMap::new(),
        }),
    };
    assert_eq!(missing.note_text_within("en", 3), None);
}
