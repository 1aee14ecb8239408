use rumbas::file_string::FileStringInput;
use rumbas::input::Input;
use rumbas::path::{FilePath, RumbasPath};
use rumbas::range::{range_from_captures, try_from_random_range, try_from_range, RangeText};
use rumbas::rc::{step_for_version, update_step, updated, UpdateStep, Version, RC};
use rumbas::repo::{LoadedFile, LoadedNormalFile};
use rumbas::sanitize::{remove_dots, sanitize};

fn range(from: &str, to: &str, step: &str) -> Option<RangeText> {
    Some(RangeText { from: from.to_string(), to: to.to_string(), step: step.to_string() })
}

#[test]
fn ranges_are_read() {
    assert_eq!(try_from_range("2 .. 10#1"), range("2", "10", "1"));
    assert_eq!(try_from_range("2.1 .. 10.5#1.99"), range("2.1", "10.5", "1.99"));
    assert_eq!(try_from_range("2..10"), range("2", "10", "1"));
    assert_eq!(try_from_range("-3 .. 4#-1"), range("-3", "4", "-1"));
    assert_eq!(try_from_range("random(2 .. 10#2)"), None);
    assert_eq!(try_from_range("x .. 10"), None);
}

#[test]
fn random_ranges_are_read() {
    assert_eq!(try_from_random_range("random(2 .. 10#2)"), range("2", "10", "2"));
    assert_eq!(try_from_random_range("random(2..10)"), range("2", "10", "1"));
    assert_eq!(try_from_random_range("random(20.222 .. 100.0#19.57)"), range("20.222", "100.0", "19.57"));
    assert_eq!(try_from_random_range("2 .. 10#1"), None);
    assert_eq!(try_from_random_range("random()"), None);
}

#[test]
fn range_from_missing_groups() {
    assert_eq!(range_from_captures(None), None);
    assert_eq!(range_from_captures(Some(vec![None, Some("1".to_string())])), None);
    let groups = vec![
        Some("1..2".to_string()),
        Some("1".to_string()),
        None,
        Some("2".to_string()),
        None,
        None,
        None,
        None,
    ];
    assert_eq!(range_from_captures(Some(groups)), range("1", "2", "1"));
}

fn rc(major: u64, minor: u64, patch: u64) -> RC {
    RC::default().with_version(Version::new(major, minor, patch))
}

#[test]
fn update_steps() {
    assert_eq!(update_step(&RC::default()), UpdateStep::TooOld);
    assert_eq!(update_step(&rc(0, 5, 3)), UpdateStep::FromZeroFive(Version::new(0, 6, 3)));
    assert_eq!(update_step(&rc(0, 6, 1)), UpdateStep::To(Version::new(0, 6, 3)));
    assert_eq!(update_step(&rc(0, 6, 3)), UpdateStep::ByHandTo(Version::new(0, 7, 0)));
    assert_eq!(update_step(&rc(0, 7, 0)), UpdateStep::To(Version::new(0, 7, 1)));
    assert_eq!(update_step(&rc(0, 7, 1)), UpdateStep::FromZeroSevenOne(Version::new(0, 8, 0)));
    assert_eq!(update_step(&rc(0, 8, 0)), UpdateStep::UpToDate);
    let pre = Version { major: 0, minor: 5, patch: 1, pre: "beta".to_string(), build: String::new() };
    assert_eq!(step_for_version(&pre, Some(false)), UpdateStep::UpToDate);
    assert_eq!(update_step(&RC::default().with_version(pre)), UpdateStep::UpToDate);
}

#[test]
fn updated_run_commands() {
    let r = updated(&RC::default(), Some(Version::new(0, 6, 3))).unwrap();
    assert_eq!(r.version(), Version::new(0, 6, 3));
    assert_eq!(updated(&RC::default(), None), None);
}

#[test]
fn sanitized_names() {
    assert_eq!(remove_dots("a.b.c"), "abc");
    let s = sanitize(&"my/part:type.v2".to_string());
    assert!(!s.contains('.'));
    assert!(!s.contains('/'));
    assert!(!s.contains(':'));
    assert_eq!(s, "myparttypev2");
}

#[test]
fn file_strings_from_text() {
    let f = FileStringInput::from_text("file:texts/intro.html");
    assert_eq!(f.file_name, Some("texts/intro.html".to_string()));
    assert_eq!(f.content, None);
    assert_eq!(f.to_text(), "file:texts/intro.html");
    let bare = FileStringInput::from_text("file:");
    assert_eq!(bare.error_message, Some("Missing filename".to_string()));
    assert_eq!(bare.find_missing().missing_fields()[0].to_string(), "Missing filename");
    let lit = FileStringInput::from_text("just text");
    assert_eq!(lit.content, Some("just text".to_string()));
    assert_eq!(lit.to_text(), "just text");
    assert!(lit.find_missing().is_empty());
    assert_eq!(lit.to_normal().get_content("en"), Some("just text".to_string()));
}

#[test]
fn file_strings_are_loaded() {
    let main = {
        let p = FilePath::from_text("questions/q.yaml");
        RumbasPath::create(&p, &p, &FilePath::from_text("")).unwrap()
    };
    let mut f = FileStringInput::from_text("file:intro.html");
    let files = f.files_to_load(&main);
    assert_eq!(files.len(), 1);
    assert!(files[0].locale_dependant);
    assert_eq!(files[0].file_path.display(), "questions/intro.html");
    let loaded = LoadedFile::Normal(LoadedNormalFile {
        file_path: files[0].file_path.clone(),
        content: "<p>hi</p>".to_string(),
    });
    f.insert_loaded_file(&main, Some(&loaded));
    assert_eq!(f.content, Some("<p>hi</p>".to_string()));
    assert!(f.files_to_load(&main).is_empty());
    let mut g = FileStringInput::from_text("file:missing.html");
    g.insert_loaded_file(&main, None);
    assert_eq!(g.error_message, Some("File not found: questions/missing.html".to_string()));
}

fn floats(r: Option<RangeText>) -> Option<(f64, f64, f64)> {
    let r = r?;
    Some((r.from.parse().ok()?, r.to.parse().ok()?, r.step.parse().ok()?))
}

#[test]
fn range_ints() {
    let s = "2 .. 10#1".to_string();
    assert_eq!(Some((2.0, 10.0, 1.0)), floats(try_from_range(&s)));
    assert_eq!(None, floats(try_from_random_range(&s)));
}

#[test]
fn random_range_ints() {
    let s = "random(2 .. 10#2)".to_string();
    assert_eq!(Some((2.0, 10.0, 2.0)), floats(try_from_random_range(&s)));
    assert_eq!(None, floats(try_from_range(&s)));
}

#[test]
fn random_range_ints_without_step() {
    let s = "random(2..10)".to_string();
    assert_eq!(Some((2.0, 10.0, 1.0)), floats(try_from_random_range(&s)));
    assert_eq!(None, floats(try_from_range(&s)));
}

#[test]
fn range_floats() {
    let s = "2.1 .. 10.5#1.99".to_string();
    assert_eq!(Some((2.1, 10.5, 1.99)), floats(try_from_range(&s)));
    assert_eq!(None, floats(try_from_random_range(&s)));
}

#[test]
fn random_range_floats() {
    let s = "random(20.222 .. 100.0#19.57)".to_string();
    assert_eq!(Some((20.222, 100.0, 19.57)), floats(try_from_random_range(&s)));
    assert_eq!(None, floats(try_from_range(&s)));
}

#[test]
fn plain_names_keep_their_allowed_characters() {
    assert_eq!(sanitize(&"résumé v2.yaml".to_string()), "résumé v2yaml");
    assert_eq!(sanitize(&"a\u{1}b|c".to_string()), "abc");
    assert_eq!(sanitize(&"...".to_string()), "");
}

#[test]
fn steps_raise_the_version() {
    assert_eq!(step_for_version(&Version::new(0, 4, 0), Some(false)), UpdateStep::TooOld);
    assert_eq!(step_for_version(&Version::new(0, 5, 2), Some(true)), UpdateStep::FromZeroFive(Version::new(0, 6, 3)));
    assert_eq!(step_for_version(&Version::new(0, 6, 1), Some(false)), UpdateStep::To(Version::new(0, 6, 3)));
    assert_eq!(step_for_version(&Version::new(0, 6, 3), Some(false)), UpdateStep::ByHandTo(Version::new(0, 7, 0)));
    assert_eq!(step_for_version(&Version::new(1, 0, 0), Some(false)), UpdateStep::UpToDate);
}
