use rumbas::repo::{CustomPartTypeFileToRead, ExamFileToRead, QuestionFileToRead, TextFileToRead};
use rumbas::dependency_manager::DependencyManager;
use rumbas::default::{
    default_file_paths, default_folders, DefaultExamFileType, DefaultFile, DefaultQuestionFileType,
};
use rumbas::path::{ancestors, find_root, within_repo, FilePath, RumbasPath};
use rumbas::repo::{
    files_of_kind, folders_of_kind, assemble_localized_file, locale_files, localized_dir, RumbasRepoFileType, RumbasRepoFolderType,
};

fn rumbas_path(s: &str) -> RumbasPath {
    let p = FilePath::from_text(s);
    RumbasPath::create(&p, &p, &FilePath::from_text("")).unwrap()
}

fn texts(v: &[&str]) -> Vec<String> {
    v.iter().map(|s| s.to_string()).collect()
}

#[test]
fn rumbas_repo_file_type() {
    assert_eq!(
        RumbasRepoFileType::DefaultFile,
        RumbasRepoFileType::from(&rumbas_path("defaults/file.yaml"))
    );
    assert_eq!(
        RumbasRepoFileType::QuestionFile,
        RumbasRepoFileType::from(&rumbas_path("questions/something/file.yaml"))
    );
    assert_eq!(
        RumbasRepoFileType::DefaultFile,
        RumbasRepoFileType::from(&rumbas_path("questions/defaults/file.yaml"))
    );
    assert_eq!(
        RumbasRepoFileType::LocaleFile("a".to_string(), rumbas_path("questions/file.yaml")),
        RumbasRepoFileType::from(&rumbas_path("questions/locale-a/file.yaml"))
    );
    assert_eq!(
        RumbasRepoFileType::ExamFile,
        RumbasRepoFileType::from(&rumbas_path("exams/something/file.yaml"))
    );
    assert_eq!(
        RumbasRepoFileType::DefaultFile,
        RumbasRepoFileType::from(&rumbas_path("exams/defaults/file.yaml"))
    );
    assert_eq!(
        RumbasRepoFileType::LocaleFile("e".to_string(), rumbas_path("exams/file.yaml")),
        RumbasRepoFileType::from(&rumbas_path("exams/locale-e/file.yaml"))
    );
    assert_eq!(
        RumbasRepoFileType::QuestionFile,
        RumbasRepoFileType::from(&rumbas_path("questions/templates/something/file.yaml"))
    );
    assert_eq!(
        RumbasRepoFileType::ExamFile,
        RumbasRepoFileType::from(&rumbas_path("exams/templates/something/file.yaml"))
    );
    assert_eq!(
        RumbasRepoFileType::CustomPartTypeFile,
        RumbasRepoFileType::from(&rumbas_path("custom_part_types/something/file.yaml"))
    );
}

#[test]
fn other_files_are_plain_files() {
    assert_eq!(
        RumbasRepoFileType::File,
        RumbasRepoFileType::from(&rumbas_path("questions/something/file.html"))
    );
    assert_eq!(
        RumbasRepoFileType::File,
        RumbasRepoFileType::from(&rumbas_path("themes/something/file.yaml"))
    );
}

#[test]
fn folder_types() {
    assert_eq!(
        RumbasRepoFolderType::from(&rumbas_path("questions/locale-nl")),
        RumbasRepoFolderType::LocalizedFolder { locale: "nl".to_string() }
    );
    assert_eq!(
        RumbasRepoFolderType::from(&rumbas_path("exams/defaults")),
        RumbasRepoFolderType::DefaultFolder
    );
    assert_eq!(RumbasRepoFolderType::from(&rumbas_path("exams")), RumbasRepoFolderType::Folder);
}

#[test]
fn path_components_and_text() {
    let p = FilePath::from_text("/home//user/./repo/");
    assert_eq!(p.components, texts(&["/", "home", "user", "repo"]));
    assert_eq!(p.display(), "/home/user/repo");
    let q = FilePath::from_text("questions/q.yaml");
    assert_eq!(q.display(), "questions/q.yaml");
    assert_eq!(p.join(&q).display(), "/home/user/repo/questions/q.yaml");
    assert_eq!(q.join(&p).display(), "/home/user/repo");
}

#[test]
fn path_prefixes_and_parents() {
    let root = FilePath::from_text("/repo");
    let file = FilePath::from_text("/repo/exams/e.yaml");
    assert!(file.starts_with(&root));
    assert!(!root.starts_with(&file));
    assert_eq!(file.strip_prefix(&root).unwrap().display(), "exams/e.yaml");
    assert_eq!(root.strip_prefix(&file), None);
    assert_eq!(file.parent().unwrap().display(), "/repo/exams");
    assert_eq!(FilePath::from_text("/").parent(), None);
    assert_eq!(FilePath::from_text("").parent(), None);
    assert_eq!(FilePath::from_text("a").parent().unwrap().display(), "");
}

#[test]
fn file_names_and_stems() {
    let f = FilePath::from_text("a/b/archive.tar.gz");
    assert_eq!(f.file_name(), Some("archive.tar.gz".to_string()));
    assert_eq!(f.file_stem(), Some("archive.tar".to_string()));
    assert_eq!(FilePath::from_text(".bashrc").file_stem(), Some(".bashrc".to_string()));
    assert_eq!(FilePath::from_text("noext").file_stem(), Some("noext".to_string()));
    assert_eq!(FilePath::from_text("a/..").file_name(), None);
    assert_eq!(FilePath::from_text("/").file_name(), None);
}

#[test]
fn ancestors_and_root() {
    let p = FilePath::from_text("/repo/questions/q.yaml");
    let all: Vec<String> = ancestors(&p).iter().map(|a| a.display()).collect();
    assert_eq!(all, texts(&["/repo/questions/q.yaml", "/repo/questions", "/repo", "/"]));
    let root = find_root(&p, &vec![false, false, true, true]).unwrap();
    assert_eq!(root.display(), "/repo");
    assert_eq!(find_root(&p, &vec![false, false, false, false]), None);
    let rel = FilePath::from_text("a/b");
    assert_eq!(ancestors(&rel).len(), 3);
    let inside = within_repo(&rel, &p, &vec![false, false, true, false]).unwrap();
    assert_eq!(inside.display(), "questions/q.yaml");
    assert_eq!(inside.root().display(), "/repo");
    assert_eq!(inside.absolute().display(), "a/b");
}

#[test]
fn keep_root_and_main_folders() {
    let p = rumbas_path("questions/q.yaml");
    assert!(p.in_main_folder("questions"));
    assert!(!p.in_main_folder("exams"));
    let e = p.keep_root(&FilePath::from_text("exams/e.yaml"));
    assert_eq!(e.display(), "exams/e.yaml");
    assert!(e.in_main_folder("exams"));
    let root = FilePath::from_text("/repo");
    let canonical = FilePath::from_text("/repo/exams/e.yaml");
    let created = RumbasPath::create(&canonical, &canonical, &root).unwrap();
    assert_eq!(created.project().display(), "exams/e.yaml");
    let outside = FilePath::from_text("/elsewhere/e.yaml");
    assert_eq!(created.in_root(&outside, &outside), None);
}

#[test]
fn dependencies_are_recorded_both_ways() {
    let mut m = DependencyManager::new();
    m.add_dependencies("q.yaml".to_string(), texts(&["d1.yaml", "d2.yaml"]));
    m.add_dependencies("e.yaml".to_string(), texts(&["d1.yaml"]));
    let mut d1 = m.get_dependants("d1.yaml");
    d1.sort();
    assert_eq!(d1, texts(&["e.yaml", "q.yaml"]));
    assert_eq!(m.get_dependants("d2.yaml"), texts(&["q.yaml"]));
    assert_eq!(m.get_dependants("q.yaml"), texts(&["q.yaml"]));
    assert_eq!(m.get_dependants("other.yaml"), Vec::<String>::new());
    m.add_dependencies("q.yaml".to_string(), texts(&["d2.yaml"]));
    assert_eq!(m.get_dependants("d2.yaml"), texts(&["q.yaml"]));
}

#[test]
fn default_files_by_name() {
    let nav = FilePath::from_text("defaults/navigation.menu.yaml");
    let d = DefaultFile::<DefaultExamFileType>::from_path(&nav).unwrap();
    assert_eq!(d.file_type, DefaultExamFileType::MenuNavigation);
    assert_eq!(d.get_path(), nav);
    let q = FilePath::from_text("defaults/questionpart.gapfill.gap.jme.yaml");
    assert_eq!(
        DefaultFile::<DefaultQuestionFileType>::from_path(&q).unwrap().file_type,
        DefaultQuestionFileType::QuestionPartGapFillGapJME
    );
    assert!(DefaultFile::<DefaultExamFileType>::from_path(&q).is_none());
    let found = vec![nav.clone(), FilePath::from_text("defaults/other.yaml"), q.clone()];
    let files = DefaultFile::<DefaultQuestionFileType>::files(&found);
    assert_eq!(files.len(), 1);
    assert_eq!(files[0].path, q);
}

#[test]
fn default_folders_and_paths() {
    let p = FilePath::from_text("questions/sub/q.yaml");
    let folders: Vec<String> = default_folders(&p).iter().map(|f| f.display()).collect();
    assert_eq!(
        folders,
        texts(&["questions/sub/defaults", "questions/defaults", "defaults", "defaults"])
    );
    let a = FilePath::from_text("defaults/a.yaml");
    let b = FilePath::from_text("questions/defaults/b.yaml");
    let unique = default_file_paths(&vec![a.clone(), b.clone(), a.clone()]);
    assert_eq!(unique, vec![a, b]);
}

#[test]
fn localized_files() {
    let file = rumbas_path("questions/text.html");
    let dir = localized_dir(&file).unwrap();
    assert_eq!(dir.display(), "questions");
    let folders = vec![
        rumbas_path("questions/locale-nl"),
        rumbas_path("questions/defaults"),
        rumbas_path("questions/locale-en"),
    ];
    let targets: Vec<(String, String)> = locale_files(&"text.html".to_string(), &folders)
        .into_iter()
        .map(|(l, p)| (l, p.display()))
        .collect();
    assert_eq!(
        targets,
        vec![
            ("nl".to_string(), "questions/locale-nl/text.html".to_string()),
            ("en".to_string(), "questions/locale-en/text.html".to_string())
        ]
    );
    let loaded = assemble_localized_file(
        &file,
        vec![
            ("nl".to_string(), Some("hallo".to_string())),
            ("fr".to_string(), None),
            ("en".to_string(), Some("hello".to_string())),
        ],
        Some("common".to_string()),
    );
    assert_eq!(loaded.content, Some("common".to_string()));
    assert_eq!(loaded.localized_content.get("nl"), Some(&"hallo".to_string()));
    assert_eq!(loaded.localized_content.get("fr"), None);
    assert_eq!(loaded.localized_content.len(), 2);
}

#[test]
fn files_to_read_in_their_folders() {
    let main = rumbas_path("exams/e.yaml");
    let t = TextFileToRead::with_file_name("texts/a.html".to_string(), &main).to_load();
    assert_eq!(t.file_path.display(), "questions/texts/a.html");
    assert!(t.locale_dependant);
    let c = CustomPartTypeFileToRead::with_file_name("my_type".to_string(), &main).to_load();
    assert_eq!(c.file_path.display(), "custom_part_types/my_type.yaml");
    assert!(!c.locale_dependant);
    let q = QuestionFileToRead::with_file_name("q1".to_string(), &main).to_load();
    assert_eq!(q.file_path.display(), "questions/q1.yaml");
    let e = ExamFileToRead::with_file_name("sub/e2.old".to_string(), &main).to_load();
    assert_eq!(e.file_path.display(), "exams/sub/e2.yaml");
}

#[test]
fn paths_keep_a_leading_current_folder() {
    assert_eq!(FilePath::from_text("./defaults/q.yaml").components, texts(&[".", "defaults", "q.yaml"]));
    assert_eq!(FilePath::from_text("a/./b").components, texts(&["a", "b"]));
    assert_eq!(FilePath::from_text(".").components, texts(&["."]));
    assert_eq!(FilePath::from_text(".hidden").components, texts(&[".hidden"]));
    assert!(!rumbas_path("defaults/q.yaml").in_main_folder("./defaults"));
    assert!(rumbas_path("defaults/q.yaml").in_main_folder("defaults"));
}

#[test]
fn extensions_are_set_or_removed() {
    assert_eq!(FilePath::from_text("a/b.txt").with_extension("yaml").components, texts(&["a", "b.yaml"]));
    assert_eq!(FilePath::from_text("a/b.txt").with_extension("").components, texts(&["a", "b"]));
}

#[test]
fn dependants_follow_the_registrations() {
    let mut m = DependencyManager::new();
    m.add_dependencies("q1".to_string(), texts(&["d1", "d2"]));
    m.add_dependencies("q2".to_string(), texts(&["d2"]));
    let mut d2 = m.get_dependants("d2");
    d2.sort();
    assert_eq!(d2, texts(&["q1", "q2"]));
    assert_eq!(m.get_dependants("d1"), texts(&["q1"]));
    assert_eq!(m.get_dependants("q2"), texts(&["q2"]));
    assert_eq!(m.get_dependants("other"), Vec::<String>::new());
}

#[test]
fn dependencies_are_known_by_their_path() {
    let mut m = DependencyManager::new();
    m.add_dependencies("questions/q.yaml".to_string(), texts(&["resources//a.html"]));
    assert_eq!(m.get_dependants("resources/a.html"), texts(&["questions/q.yaml"]));
    assert_eq!(m.get_dependants("resources/./a.html/"), texts(&["questions/q.yaml"]));
}

#[test]
fn files_and_folders_are_chosen_by_kind() {
    let files = vec![
        rumbas_path("questions/a.yaml"),
        rumbas_path("questions/b.txt"),
        rumbas_path("exams/e.yaml"),
        rumbas_path("questions/c.yaml"),
    ];
    let names = |v: Vec<RumbasPath>| v.iter().map(|p| p.display()).collect::<Vec<_>>();
    assert_eq!(
        names(files_of_kind(&files, &RumbasRepoFileType::QuestionFile)),
        texts(&["questions/a.yaml", "questions/c.yaml"])
    );
    assert_eq!(names(files_of_kind(&files, &RumbasRepoFileType::ExamFile)), texts(&["exams/e.yaml"]));
    let folders = vec![
        rumbas_path("questions/defaults"),
        rumbas_path("questions/sub"),
        rumbas_path("questions/locale-nl"),
    ];
    assert_eq!(names(folders_of_kind(&folders, false)), texts(&["questions/sub"]));
    assert_eq!(names(folders_of_kind(&folders, true)), texts(&["questions/defaults"]));
}
