//! What the files and folders of a rumbas repository are, by their place in it, and the files
//! that are read from it.
use crate::path::{file_name_of, last_dot, stem_of, FilePath, RumbasPath, components_of};
use crate::string_map::StringMap;
use vstd::prelude::*;

verus! {

/// The folder of the questions.
pub const QUESTIONS_FOLDER: &'static str = "questions";

/// The folder of the exams.
pub const EXAMS_FOLDER: &'static str = "exams";

/// The folder of the question templates.
pub const QUESTION_TEMPLATES_FOLDER: &'static str = "question_templates";

/// The folder of the exam templates.
pub const EXAM_TEMPLATES_FOLDER: &'static str = "exam_templates";

/// The folder of the resources.
pub const RESOURCES_FOLDER: &'static str = "resources";

/// The name of the folders with default files.
pub const DEFAULTS_FOLDER: &'static str = "defaults";

/// The folder of the themes.
pub const THEMES_FOLDER: &'static str = "themes";

/// The folder of the custom part types.
pub const CUSTOM_PART_TYPES_FOLDER: &'static str = "custom_part_types";

/// The name of the question template used to preview a question.
pub const QUESTION_PREVIEW_TEMPLATE_NAME: &'static str = "question_preview";

/// The environment variable that holds the folder of Numbas.
pub const NUMBAS_FOLDER_ENV: &'static str = "NUMBAS_FOLDER";

/// The prefix of the folders of one locale.
pub const LOCALE_FOLDER_PREFIX: &'static str = "locale-";

/// The name of the file with the run commands, in the root of a repository.
pub const RC_FILE_NAME: &'static str = ".rumbasrc.yaml";

/// The prefix of the names of folders that hold the files of one locale.
pub open spec fn locale_prefix() -> Seq<char> {
    "locale-"@
}

/// The kinds of folders.
#[derive(Debug, PartialEq)]
pub enum RumbasRepoFolderType {
    /// A `defaults` folder
    DefaultFolder,
    /// A `locale-<locale>` folder
    LocalizedFolder { locale: String },
    /// Any other folder
    Folder,
}

/// The kind of the folder at `project` (a path within the repository), by its name without
/// extension: `defaults`, or `locale-` followed by the locale.
pub open spec fn is_folder_type(project: Seq<Seq<char>>, t: RumbasRepoFolderType) -> bool {
    match file_name_of(project) {
        Some(name) => {
            let stem = stem_of(name);
            if stem == "defaults"@ {
                t == RumbasRepoFolderType::DefaultFolder
            } else if locale_prefix().is_prefix_of(stem) {
                t matches RumbasRepoFolderType::LocalizedFolder { locale } && locale@ == stem.skip(
                    locale_prefix().len() as int,
                )
            } else {
                t == RumbasRepoFolderType::Folder
            }
        },
        None => t == RumbasRepoFolderType::Folder,
    }
}

/// The kind of a folder, by the text of its name without extension.
fn folder_type_of_stem(stem: &String) -> (r: RumbasRepoFolderType)
    ensures
        if stem@ == "defaults"@ {
            r == RumbasRepoFolderType::DefaultFolder
        } else if locale_prefix().is_prefix_of(stem@) {
            r matches RumbasRepoFolderType::LocalizedFolder { locale } && locale@ == stem@.skip(
                locale_prefix().len() as int,
            )
        } else {
            r == RumbasRepoFolderType::Folder
        },
{
    if crate::text::same_text(stem.as_str(), "defaults") {
        return RumbasRepoFolderType::DefaultFolder;
    }
    let prefix_here = crate::text::starts_with(stem.as_str(), "locale-");
    proof {
        reveal_strlit("locale-");
    }
    if prefix_here {
        let v = crate::text::chars_of(stem.as_str());
        let mut rest: Vec<char> = Vec::new();
        let mut i: usize = 7;
        assert("locale-"@.len() == 7);
        while i < v.len()
            invariant
                7 <= i <= v@.len(),
                v@ == stem@,
                rest@ == v@.subrange(7, i as int),
            decreases v@.len() - i,
        {
            rest.push(v[i]);
            assert(rest@ =~= v@.subrange(7, i + 1));
            i += 1;
        }
        assert(v@.skip(7) =~= v@.subrange(7, v@.len() as int));
        RumbasRepoFolderType::LocalizedFolder { locale: crate::text::string_of(&rest) }
    } else {
        RumbasRepoFolderType::Folder
    }
}

impl RumbasRepoFolderType {
    /// The kind of the folder at `p`.
    pub fn from(p: &RumbasPath) -> (r: Self)
        ensures
            is_folder_type(p@.1, r),
    {
        match p.project().file_stem() {
            Some(stem) => folder_type_of_stem(&stem),
            None => RumbasRepoFolderType::Folder,
        }
    }
}

/// Whether the file name has the extension `yaml`.
pub open spec fn has_yaml_extension(p: Seq<Seq<char>>) -> bool {
    match file_name_of(p) {
        Some(name) => match last_dot(name) {
            Some(i) => i > 0 && name.skip(i + 1) == "yaml"@,
            None => false,
        },
        None => false,
    }
}

/// The kinds of files.
#[derive(Debug, PartialEq)]
pub enum RumbasRepoFileType {
    QuestionFile,
    ExamFile,
    CustomPartTypeFile,
    DefaultFile,
    /// A file in a `locale-<locale>` folder: the locale, and the file that it translates.
    LocaleFile(String, RumbasPath),
    File,
}

/// The file that a file in a locale folder translates: the file of the same name next to that
/// folder.
pub open spec fn translated_file(project: Seq<Seq<char>>) -> Seq<Seq<char>> {
    project.drop_last().drop_last().push(project.last())
}

/// Whether the file at `project` lies in the main folder written as `s`.
pub open spec fn in_folder(project: Seq<Seq<char>>, s: Seq<char>) -> bool {
    components_of(s).is_prefix_of(project)
}

/// The kind of the file at `p`: by the kind of its folder, then, for yaml files, by the main
/// folder that it lies in.
pub open spec fn is_file_type(p: (Seq<Seq<char>>, Seq<Seq<char>>, Seq<Seq<char>>), t: RumbasRepoFileType) -> bool {
    let project = p.1;
    let folder = project.drop_last();
    match file_name_of(folder) {
        Some(name) if locale_prefix().is_prefix_of(stem_of(name)) && stem_of(name) != "defaults"@ => {
            t matches RumbasRepoFileType::LocaleFile(locale, rp) && locale@ == stem_of(name).skip(
                locale_prefix().len() as int,
            ) && rp@ == (
                p.0,
                translated_file(project),
                crate::path::join_path(p.0, translated_file(project)),
            )
        },
        Some(name) if stem_of(name) == "defaults"@ => t == RumbasRepoFileType::DefaultFile,
        _ => if has_yaml_extension(project) {
            if in_folder(project, "defaults"@) {
                t == RumbasRepoFileType::DefaultFile
            } else if in_folder(project, "questions"@) {
                t == RumbasRepoFileType::QuestionFile
            } else if in_folder(project, "exams"@) {
                t == RumbasRepoFileType::ExamFile
            } else if in_folder(project, "custom_part_types"@) {
                t == RumbasRepoFileType::CustomPartTypeFile
            } else {
                t == RumbasRepoFileType::File
            }
        } else {
            t == RumbasRepoFileType::File
        },
    }
}

/// Whether the extension of the file name is `yaml`.
fn yaml_extension(p: &FilePath) -> (r: bool)
    ensures
        r == has_yaml_extension(p@),
{
    match p.file_name() {
        None => false,
        Some(name) => {
            let v = crate::text::chars_of(name.as_str());
            let mut i: usize = v.len();
            assert(v@.take(v@.len() as int) =~= v@);
            while i > 0
                invariant
                    i <= v@.len(),
                    last_dot(v@) == last_dot(v@.take(i as int)),
                ensures
                    i == 0 || v@[i - 1] == '.',
                decreases i,
            {
                if v[i - 1] == '.' {
                    break;
                }
                assert(v@.take(i as int).drop_last() =~= v@.take(i - 1));
                i -= 1;
            }
            if i <= 1 {
                proof {
                    if i == 1 {
                        assert(v@.take(1).last() == v@[0]);
                    } else {
                        assert(v@.take(0) =~= Seq::<char>::empty());
                    }
                }
                false
            } else {
                assert(v@.take(i as int).last() == v@[i - 1]);
                let mut ext: Vec<char> = Vec::new();
                let mut j: usize = i;
                while j < v.len()
                    invariant
                        i <= j <= v@.len(),
                        ext@ == v@.subrange(i as int, j as int),
                    decreases v@.len() - j,
                {
                    ext.push(v[j]);
                    assert(ext@ =~= v@.subrange(i as int, j + 1));
                    j += 1;
                }
                assert(v@.skip(i as int) =~= ext@);
                let e = crate::text::string_of(&ext);
                crate::text::same_text(e.as_str(), "yaml")
            }
        },
    }
}

/// Whether the file at `project` lies directly in a `locale-<locale>` folder.
pub open spec fn in_locale_folder(project: Seq<Seq<char>>) -> bool {
    match file_name_of(project.drop_last()) {
        Some(name) => stem_of(name) != "defaults"@ && locale_prefix().is_prefix_of(stem_of(name)),
        None => false,
    }
}

impl RumbasRepoFileType {
    /// The kind of the file at `p`, which lies in a folder of the repository; a file in a locale
    /// folder must have a name.
    pub fn from(p: &RumbasPath) -> (r: Self)
        requires
            crate::path::parent_path(p@.1) is Some,
            in_locale_folder(p@.1) ==> file_name_of(p@.1) is Some,
        ensures
            is_file_type(p@, r),
    {
        let project = p.project();
        let folder = match project.parent() {
            Some(f) => f,
            None => {
                return RumbasRepoFileType::File;
            },
        };
        assert(folder@ == p@.1.drop_last());
        let folder_stem = folder.file_stem();
        if let Some(stem) = &folder_stem {
            let kind = folder_type_of_stem(stem);
            match kind {
                RumbasRepoFolderType::LocalizedFolder { locale } => {
                    let name = match project.file_name() {
                        Some(n) => n,
                        None => {
                            return RumbasRepoFileType::File;
                        },
                    };
                    let up = match folder.parent() {
                        Some(u) => u,
                        None => {
                            return RumbasRepoFileType::File;
                        },
                    };
                    let ghost upv = up@;
                    let mut cs = up.components;
                    let ghost name_v = name@;
                    cs.push(name);
                    let resource = FilePath { components: cs };
                    assert(resource@ =~= upv.push(name_v));
                    assert(resource@ =~= translated_file(p@.1));
                    return RumbasRepoFileType::LocaleFile(locale, p.keep_root(&resource));
                },
                RumbasRepoFolderType::DefaultFolder => {
                    return RumbasRepoFileType::DefaultFile;
                },
                RumbasRepoFolderType::Folder => {},
            }
        }
        if yaml_extension(project) {
            if p.in_main_folder("defaults") {
                RumbasRepoFileType::DefaultFile
            } else if p.in_main_folder("questions") {
                RumbasRepoFileType::QuestionFile
            } else if p.in_main_folder("exams") {
                RumbasRepoFileType::ExamFile
            } else if p.in_main_folder("custom_part_types") {
                RumbasRepoFileType::CustomPartTypeFile
            } else {
                RumbasRepoFileType::File
            }
        } else {
            RumbasRepoFileType::File
        }
    }
}

/// Whether two kinds of files are the same, as rumbas compares them: a locale file by its
/// locale and by the position of the file it translates.
pub open spec fn same_file_kind(a: RumbasRepoFileType, b: RumbasRepoFileType) -> bool {
    match (a, b) {
        (RumbasRepoFileType::QuestionFile, RumbasRepoFileType::QuestionFile) => true,
        (RumbasRepoFileType::ExamFile, RumbasRepoFileType::ExamFile) => true,
        (RumbasRepoFileType::CustomPartTypeFile, RumbasRepoFileType::CustomPartTypeFile) => true,
        (RumbasRepoFileType::DefaultFile, RumbasRepoFileType::DefaultFile) => true,
        (RumbasRepoFileType::File, RumbasRepoFileType::File) => true,
        (RumbasRepoFileType::LocaleFile(l1, p1), RumbasRepoFileType::LocaleFile(l2, p2)) => l1@
            == l2@ && p1@.2 == p2@.2,
        _ => false,
    }
}

/// Whether two kinds of files are the same.
fn same_file_kind_exec(a: &RumbasRepoFileType, b: &RumbasRepoFileType) -> (r: bool)
    ensures
        r == same_file_kind(*a, *b),
{
    match (a, b) {
        (RumbasRepoFileType::QuestionFile, RumbasRepoFileType::QuestionFile) => true,
        (RumbasRepoFileType::ExamFile, RumbasRepoFileType::ExamFile) => true,
        (RumbasRepoFileType::CustomPartTypeFile, RumbasRepoFileType::CustomPartTypeFile) => true,
        (RumbasRepoFileType::DefaultFile, RumbasRepoFileType::DefaultFile) => true,
        (RumbasRepoFileType::File, RumbasRepoFileType::File) => true,
        (RumbasRepoFileType::LocaleFile(l1, p1), RumbasRepoFileType::LocaleFile(l2, p2)) => {
            crate::text::same_text(l1.as_str(), l2.as_str()) && p1.absolute().same_as(
                p2.absolute(),
            )
        },
        _ => false,
    }
}

/// Whether the file at `p` can be given a kind: it lies in a folder, and has a name when that
/// folder is a locale folder.
pub open spec fn has_file_kind(p: RumbasPath) -> bool {
    crate::path::parent_path(p@.1) is Some && (in_locale_folder(p@.1) ==> file_name_of(p@.1) is Some)
}

/// Whether the file at `p` is of the kind `wanted`.
pub open spec fn file_is_of_kind(p: RumbasPath, wanted: RumbasRepoFileType) -> bool {
    forall|t: RumbasRepoFileType| #[trigger] is_file_type(p@, t) ==> same_file_kind(t, wanted)
}

/// The views of a list of paths.
pub open spec fn path_views(v: Seq<RumbasPath>) -> Seq<(Seq<Seq<char>>, Seq<Seq<char>>, Seq<Seq<char>>)> {
    v.map_values(|p: RumbasPath| p@)
}

/// The files among `files` of the kind `wanted`, in order.
pub fn files_of_kind(files: &Vec<RumbasPath>, wanted: &RumbasRepoFileType) -> (r: Vec<RumbasPath>)
    requires
        forall|i: int| 0 <= i < files@.len() ==> has_file_kind(#[trigger] files@[i]),
    ensures
        path_views(r@) == path_views(files@.filter(|p: RumbasPath| file_is_of_kind(p, *wanted))),
{
    let ghost pred = |p: RumbasPath| file_is_of_kind(p, *wanted);
    let mut r: Vec<RumbasPath> = Vec::new();
    let mut i: usize = 0;
    assert(files@.take(0) =~= Seq::<RumbasPath>::empty());
    proof {
        reveal(Seq::filter);
    }
    while i < files.len()
        invariant
            i <= files@.len(),
            forall|j: int| 0 <= j < files@.len() ==> has_file_kind(#[trigger] files@[j]),
            pred == (|p: RumbasPath| file_is_of_kind(p, *wanted)),
            path_views(r@) == path_views(files@.take(i as int).filter(pred)),
        decreases files@.len() - i,
    {
        let f = &files[i];
        assert(has_file_kind(files@[i as int]));
        let kind = RumbasRepoFileType::from(f);
        let same = same_file_kind_exec(&kind, wanted);
        assert(files@.take(i + 1).drop_last() =~= files@.take(i as int));
        assert(files@.take(i + 1).last() == files@[i as int]);
        proof {
            reveal(Seq::filter);
        }
        if same {
            let ghost before = r@;
            r.push(f.clone());
            assert(path_views(r@) =~= path_views(before).push(files@[i as int]@));
            assert(pred(files@[i as int]));
        } else {
            assert(!pred(files@[i as int]));
        }
        assert(path_views(files@.take(i + 1).filter(pred)) =~= if pred(files@[i as int]) {
            path_views(files@.take(i as int).filter(pred)).push(files@[i as int]@)
        } else {
            path_views(files@.take(i as int).filter(pred))
        });
        i += 1;
    }
    assert(files@.take(files@.len() as int) =~= files@);
    r
}

/// Whether the folder at `p` is a `defaults` folder (when `default` is set) or a plain folder,
/// neither a `defaults` nor a locale folder (otherwise).
pub open spec fn folder_is(p: RumbasPath, default: bool) -> bool {
    if default {
        is_folder_type(p@.1, RumbasRepoFolderType::DefaultFolder)
    } else {
        is_folder_type(p@.1, RumbasRepoFolderType::Folder)
    }
}

/// The folders among `folders` that are `defaults` folders (when `default` is set) or plain
/// folders (otherwise), in order.
pub fn folders_of_kind(folders: &Vec<RumbasPath>, default: bool) -> (r: Vec<RumbasPath>)
    ensures
        path_views(r@) == path_views(folders@.filter(|p: RumbasPath| folder_is(p, default))),
{
    let ghost pred = |p: RumbasPath| folder_is(p, default);
    let mut r: Vec<RumbasPath> = Vec::new();
    let mut i: usize = 0;
    assert(folders@.take(0) =~= Seq::<RumbasPath>::empty());
    proof {
        reveal(Seq::filter);
    }
    while i < folders.len()
        invariant
            i <= folders@.len(),
            pred == (|p: RumbasPath| folder_is(p, default)),
            path_views(r@) == path_views(folders@.take(i as int).filter(pred)),
        decreases folders@.len() - i,
    {
        let f = &folders[i];
        let kind = RumbasRepoFolderType::from(f);
        let wanted = match kind {
            RumbasRepoFolderType::DefaultFolder => default,
            RumbasRepoFolderType::LocalizedFolder { .. } => false,
            RumbasRepoFolderType::Folder => !default,
        };
        assert(folders@.take(i + 1).drop_last() =~= folders@.take(i as int));
        assert(folders@.take(i + 1).last() == folders@[i as int]);
        proof {
            reveal(Seq::filter);
        }
        if wanted {
            let ghost before = r@;
            r.push(f.clone());
            assert(path_views(r@) =~= path_views(before).push(folders@[i as int]@));
            assert(pred(folders@[i as int]));
        } else {
            assert(!pred(folders@[i as int]));
        }
        assert(path_views(folders@.take(i + 1).filter(pred)) =~= if pred(folders@[i as int]) {
            path_views(folders@.take(i as int).filter(pred)).push(folders@[i as int]@)
        } else {
            path_views(folders@.take(i as int).filter(pred))
        });
        i += 1;
    }
    assert(folders@.take(folders@.len() as int) =~= folders@);
    r
}

/// A file to read: where it is, and whether it has versions per locale.
#[derive(Debug, PartialEq)]
pub struct FileToLoad {
    pub file_path: RumbasPath,
    pub locale_dependant: bool,
}

/// A file that was read.
#[derive(Debug)]
pub enum LoadedFile {
    Normal(LoadedNormalFile),
    Localized(LoadedLocalizedFile),
}

/// A file that was read as a whole.
#[derive(Debug)]
pub struct LoadedNormalFile {
    pub file_path: RumbasPath,
    pub content: String,
}

/// A file that was read with its versions per locale.
#[derive(Debug)]
pub struct LoadedLocalizedFile {
    pub file_path: RumbasPath,
    /// The version for all locales, if there is one
    pub content: Option<String>,
    /// The version for each locale that has one
    pub localized_content: StringMap<String>,
}

/// The folder that holds the file at `file_path`, in the same repository; `None` when the path
/// within the repository has no parent.
pub fn localized_dir(file_path: &RumbasPath) -> (r: Option<RumbasPath>)
    ensures
        match crate::path::parent_path(file_path@.1) {
            Some(d) => r matches Some(rp) && rp@ == (
                file_path@.0,
                d,
                crate::path::join_path(file_path@.0, d),
            ),
            None => r is None,
        },
{
    match file_path.project().parent() {
        Some(d) => Some(file_path.keep_root(&d)),
        None => None,
    }
}

/// The locale of the folder at `project`, when it is a `locale-<locale>` folder.
pub open spec fn folder_locale(project: Seq<Seq<char>>) -> Option<Seq<char>> {
    match file_name_of(project) {
        Some(name) => if stem_of(name) != "defaults"@ && locale_prefix().is_prefix_of(
            stem_of(name),
        ) {
            Some(stem_of(name).skip(locale_prefix().len() as int))
        } else {
            None
        },
        None => None,
    }
}

/// For each `locale-<locale>` folder among `folders`, in order: the locale and the path of the
/// file named `name` in it.
pub open spec fn locale_targets(folders: Seq<RumbasPath>, name: Seq<char>) -> Seq<
    (Seq<char>, Seq<Seq<char>>),
>
    decreases folders.len(),
{
    if folders.len() == 0 {
        Seq::empty()
    } else {
        let rest = locale_targets(folders.drop_last(), name);
        match folder_locale(folders.last()@.1) {
            Some(locale) => rest.push(
                (locale, crate::path::join_path(folders.last()@.2, seq![name])),
            ),
            None => rest,
        }
    }
}

/// The versions per locale of a file named `file_name`: for each folder among `folders` that is
/// a `locale-<locale>` folder, the locale and the path of the file of that name in it.
pub fn locale_files(file_name: &String, folders: &Vec<RumbasPath>) -> (r: Vec<(String, FilePath)>)
    ensures
        r@.map_values(|e: (String, FilePath)| (e.0@, e.1@)) == locale_targets(
            folders@,
            file_name@,
        ),
{
    let mut r: Vec<(String, FilePath)> = Vec::new();
    let mut k: usize = 0;
    assert(folders@.take(0) =~= Seq::<RumbasPath>::empty());
    while k < folders.len()
        invariant
            k <= folders@.len(),
            r@.map_values(|e: (String, FilePath)| (e.0@, e.1@)) == locale_targets(
                folders@.take(k as int),
                file_name@,
            ),
        decreases folders@.len() - k,
    {
        assert(folders@.take(k + 1).drop_last() =~= folders@.take(k as int));
        assert(folders@.take(k + 1).last() == folders@[k as int]);
        let f = &folders[k];
        let kind = RumbasRepoFolderType::from(f);
        match kind {
            RumbasRepoFolderType::LocalizedFolder { locale } => {
                let mut cs: Vec<String> = Vec::new();
                cs.push(file_name.clone());
                let name_path = FilePath { components: cs };
                assert(name_path@ =~= seq![file_name@]);
                let target = f.absolute().join(&name_path);
                let ghost before = r@;
                let ghost entry = (locale@, target@);
                r.push((locale, target));
                assert(r@.map_values(|e: (String, FilePath)| (e.0@, e.1@)) =~= before.map_values(
                    |e: (String, FilePath)| (e.0@, e.1@),
                ).push(entry));
            },
            _ => {},
        }
        k += 1;
    }
    assert(folders@.take(folders@.len() as int) =~= folders@);
    r
}

/// The versions per locale that were found, as entries: each locale whose file could be read,
/// later ones replacing earlier ones of the same locale.
pub open spec fn found_entries(found: Seq<(String, Option<String>)>) -> Seq<(Seq<char>, String)>
    decreases found.len(),
{
    if found.len() == 0 {
        Seq::empty()
    } else {
        let rest = found_entries(found.drop_last());
        match found.last().1 {
            Some(text) => crate::string_map::insert_spec(rest, found.last().0@, text),
            None => rest,
        }
    }
}

/// The localized file at `file_path`, from its version for all locales (if it could be read) and
/// the versions per locale that were looked for (each with its text, if it could be read).
pub fn assemble_localized_file(
    file_path: &RumbasPath,
    found: Vec<(String, Option<String>)>,
    content: Option<String>,
) -> (r: LoadedLocalizedFile)
    ensures
        r.file_path@ == file_path@,
        r.content == content,
        r.localized_content.entries_spec() == found_entries(found@),
{
    let n = found.len();
    let ghost all = found@;
    let mut map: StringMap<String> = StringMap::new();
    let mut rest = found;
    let mut k: usize = 0;
    assert(all.take(0) =~= Seq::<(String, Option<String>)>::empty());
    while rest.len() > 0
        invariant
            k + rest@.len() == all.len(),
            all.len() == n,
            rest@ == all.skip(k as int),
            map.entries_spec() == found_entries(all.take(k as int)),
        decreases rest@.len(),
    {
        let (locale, text) = rest.remove(0);
        assert(all.take(k + 1).drop_last() =~= all.take(k as int));
        assert(all.take(k + 1).last() == all[k as int]);
        assert(all[k as int] == (locale, text));
        match text {
            Some(t) => {
                map.insert(locale, t);
            },
            None => {},
        }
        k += 1;
        assert(rest@ =~= all.skip(k as int));
    }
    assert(all.take(all.len() as int) =~= all);
    LoadedLocalizedFile { file_path: file_path.clone(), content, localized_content: map }
}

/// The path `folder/name` (with the extension `ext`, when one is given) in the repository of
/// `main`.
pub open spec fn named_file(
    folder: Seq<char>,
    name: Seq<char>,
    ext: Option<Seq<char>>,
    main: (Seq<Seq<char>>, Seq<Seq<char>>, Seq<Seq<char>>),
) -> (Seq<Seq<char>>, Seq<Seq<char>>, Seq<Seq<char>>) {
    let joined = crate::path::join_path(components_of(folder), components_of(name));
    let project = match ext {
        Some(e) => crate::path::with_extension_spec(joined, e),
        None => joined,
    };
    (main.0, project, crate::path::join_path(main.0, project))
}

/// The path `folder/name` (with the extension `yaml` when `yaml` is set) in the repository of
/// `main`.
fn named_file_path(folder: &str, name: &str, yaml: bool, main: &RumbasPath) -> (r: RumbasPath)
    ensures
        r@ == named_file(folder@, name@, if yaml { Some("yaml"@) } else { None }, main@),
{
    let joined = FilePath::from_text(folder).join(&FilePath::from_text(name));
    let project = if yaml {
        proof {
            reveal_strlit("yaml");
        }
        joined.with_extension("yaml")
    } else {
        joined
    };
    main.keep_root(&project)
}

/// A text file that a file string refers to, in the `questions` folder, read per locale.
#[derive(Debug)]
pub struct TextFileToRead {
    pub file_path: RumbasPath,
}

impl TextFileToRead {
    /// The text file `questions/<file_name>` in the repository of `main`.
    pub fn with_file_name(file_name: String, main: &RumbasPath) -> (r: Self)
        ensures
            r.file_path@ == named_file("questions"@, file_name@, None, main@),
    {
        TextFileToRead { file_path: named_file_path("questions", file_name.as_str(), false, main) }
    }

    /// The file to load: read per locale.
    pub fn to_load(self) -> (r: FileToLoad)
        ensures
            r.file_path@ == self.file_path@,
            r.locale_dependant,
    {
        FileToLoad { file_path: self.file_path, locale_dependant: true }
    }
}

/// The file of a custom part type, `custom_part_types/<name>.yaml`.
#[derive(Debug)]
pub struct CustomPartTypeFileToRead {
    pub file_path: RumbasPath,
}

impl CustomPartTypeFileToRead {
    /// The custom part type file `custom_part_types/<file_name>.yaml` in the repository of `main`.
    pub fn with_file_name(file_name: String, main: &RumbasPath) -> (r: Self)
        ensures
            r.file_path@ == named_file("custom_part_types"@, file_name@, Some("yaml"@), main@),
    {
        CustomPartTypeFileToRead {
            file_path: named_file_path("custom_part_types", file_name.as_str(), true, main),
        }
    }

    /// The file to load: one version for all locales.
    pub fn to_load(self) -> (r: FileToLoad)
        ensures
            r.file_path@ == self.file_path@,
            !r.locale_dependant,
    {
        FileToLoad { file_path: self.file_path, locale_dependant: false }
    }
}

/// The file of a question, `questions/<name>.yaml`.
#[derive(Debug)]
pub struct QuestionFileToRead {
    pub file_path: RumbasPath,
}

impl QuestionFileToRead {
    /// The question file `questions/<file_name>.yaml` in the repository of `main`.
    pub fn with_file_name(file_name: String, main: &RumbasPath) -> (r: Self)
        ensures
            r.file_path@ == named_file("questions"@, file_name@, Some("yaml"@), main@),
    {
        QuestionFileToRead { file_path: named_file_path("questions", file_name.as_str(), true, main) }
    }

    /// The file to load: one version for all locales.
    pub fn to_load(self) -> (r: FileToLoad)
        ensures
            r.file_path@ == self.file_path@,
            !r.locale_dependant,
    {
        FileToLoad { file_path: self.file_path, locale_dependant: false }
    }
}

/// The file of an exam, `exams/<name>.yaml`.
#[derive(Debug)]
pub struct ExamFileToRead {
    pub file_path: RumbasPath,
}

impl ExamFileToRead {
    /// The exam file `exams/<file_name>.yaml` in the repository of `main`.
    pub fn with_file_name(file_name: String, main: &RumbasPath) -> (r: Self)
        ensures
            r.file_path@ == named_file("exams"@, file_name@, Some("yaml"@), main@),
    {
        ExamFileToRead { file_path: named_file_path("exams", file_name.as_str(), true, main) }
    }

    /// The file to load: one version for all locales.
    pub fn to_load(self) -> (r: FileToLoad)
        ensures
            r.file_path@ == self.file_path@,
            !r.locale_dependant,
    {
        FileToLoad { file_path: self.file_path, locale_dependant: false }
    }
}

} // verus!
