//! The files in `defaults` folders, whose settings fill in what exams and questions leave out.
use crate::path::{file_name_of, is_name, stem_of, FilePath};
use crate::text::same_text;
use vstd::prelude::*;

verus! {

/// The name of the folders that hold default files.
pub open spec fn defaults_folder() -> Seq<char> {
    "defaults"@
}

/// The kinds of default files, each recognised by the name of its file.
pub trait DefaultFileTypeMethods: Sized {
    /// The kind of default file whose name without extension is `stem`.
    spec fn named(stem: Seq<char>) -> Option<Self>;

    /// The kind of default file whose name without extension is `stem`.
    fn from_stem(stem: &str) -> (r: Option<Self>)
        ensures
            r == Self::named(stem@),
    ;

    /// The kind of default file at `path`, by the name of the file without its extension; `None`
    /// for any other file.
    fn from_path(path: &FilePath) -> (r: Option<Self>)
        ensures
            r == match file_name_of(path@) {
                Some(name) => Self::named(stem_of(name)),
                None => None,
            },
    {
        match path.file_stem() {
            Some(stem) => Self::from_stem(stem.as_str()),
            None => None,
        }
    }
}

/// The kinds of default files for exams.
#[derive(Debug, PartialEq, Eq, Structural)]
pub enum DefaultExamFileType {
    /// Read from `navigation.yaml`
    SequentialNavigation,
    /// Read from `navigation.menu.yaml`
    MenuNavigation,
    /// Read from `navigation.diagnostic.yaml`
    DiagnosticNavigation,
    /// Read from `timing.yaml`
    Timing,
    /// Read from `feedback.yaml`
    Feedback,
    /// Read from `numbas_settings.yaml`
    NumbasSettings,
}

impl DefaultFileTypeMethods for DefaultExamFileType {
    open spec fn named(stem: Seq<char>) -> Option<Self> {
        if stem == "navigation"@ {
            Some(DefaultExamFileType::SequentialNavigation)
        } else if stem == "navigation.menu"@ {
            Some(DefaultExamFileType::MenuNavigation)
        } else if stem == "navigation.diagnostic"@ {
            Some(DefaultExamFileType::DiagnosticNavigation)
        } else if stem == "timing"@ {
            Some(DefaultExamFileType::Timing)
        } else if stem == "feedback"@ {
            Some(DefaultExamFileType::Feedback)
        } else if stem == "numbas_settings"@ {
            Some(DefaultExamFileType::NumbasSettings)
        } else {
            None
        }
    }

    fn from_stem(stem: &str) -> (r: Option<Self>) {
        if same_text(stem, "navigation") {
            Some(DefaultExamFileType::SequentialNavigation)
        } else if same_text(stem, "navigation.menu") {
            Some(DefaultExamFileType::MenuNavigation)
        } else if same_text(stem, "navigation.diagnostic") {
            Some(DefaultExamFileType::DiagnosticNavigation)
        } else if same_text(stem, "timing") {
            Some(DefaultExamFileType::Timing)
        } else if same_text(stem, "feedback") {
            Some(DefaultExamFileType::Feedback)
        } else if same_text(stem, "numbas_settings") {
            Some(DefaultExamFileType::NumbasSettings)
        } else {
            None
        }
    }
}

/// The kinds of default files for questions.
#[derive(Debug, PartialEq, Eq, Structural)]
pub enum DefaultQuestionFileType {
    /// Read from `question.yaml`
    Question,
    /// Read from `questionpart.jme.yaml`
    QuestionPartJME,
    /// Read from `questionpart.gapfill.yaml`
    QuestionPartGapFill,
    /// Read from `questionpart.choose_one.yaml`
    QuestionPartChooseOne,
    /// Read from `questionpart.choose_multiple.yaml`
    QuestionPartChooseMultiple,
    /// Read from `questionpart.match_answers.yaml`
    QuestionPartMatchAnswersWithItems,
    /// Read from `questionpart.number_entry.yaml`
    QuestionPartNumberEntry,
    /// Read from `questionpart.pattern_match.yaml`
    QuestionPartPatternMatch,
    /// Read from `questionpart.information.yaml`
    QuestionPartInformation,
    /// Read from `questionpart.extension.yaml`
    QuestionPartExtension,
    /// Read from `questionpart.gapfill.gap.jme.yaml`
    QuestionPartGapFillGapJME,
    /// Read from `questionpart.gapfill.gap.choose_one.yaml`
    QuestionPartGapFillGapChooseOne,
    /// Read from `questionpart.gapfill.gap.choose_multiple.yaml`
    QuestionPartGapFillGapChooseMultiple,
    /// Read from `questionpart.gapfill.gap.match_answers.yaml`
    QuestionPartGapFillGapMatchAnswersWithItems,
    /// Read from `questionpart.gapfill.gap.number_entry.yaml`
    QuestionPartGapFillGapNumberEntry,
    /// Read from `questionpart.gapfill.gap.pattern_match.yaml`
    QuestionPartGapFillGapPatternMatch,
    /// Read from `questionpart.gapfill.gap.information.yaml`
    QuestionPartGapFillGapInformation,
    /// Read from `questionpart.gapfill.gap.extension.yaml`
    QuestionPartGapFillGapExtension,
}

impl DefaultFileTypeMethods for DefaultQuestionFileType {
    open spec fn named(stem: Seq<char>) -> Option<Self> {
        if stem == "question"@ {
            Some(DefaultQuestionFileType::Question)
        } else if stem == "questionpart.jme"@ {
            Some(DefaultQuestionFileType::QuestionPartJME)
        } else if stem == "questionpart.gapfill"@ {
            Some(DefaultQuestionFileType::QuestionPartGapFill)
        } else if stem == "questionpart.choose_one"@ {
            Some(DefaultQuestionFileType::QuestionPartChooseOne)
        } else if stem == "questionpart.choose_multiple"@ {
            Some(DefaultQuestionFileType::QuestionPartChooseMultiple)
        } else if stem == "questionpart.match_answers"@ {
            Some(DefaultQuestionFileType::QuestionPartMatchAnswersWithItems)
        } else if stem == "questionpart.number_entry"@ {
            Some(DefaultQuestionFileType::QuestionPartNumberEntry)
        } else if stem == "questionpart.pattern_match"@ {
            Some(DefaultQuestionFileType::QuestionPartPatternMatch)
        } else if stem == "questionpart.information"@ {
            Some(DefaultQuestionFileType::QuestionPartInformation)
        } else if stem == "questionpart.extension"@ {
            Some(DefaultQuestionFileType::QuestionPartExtension)
        } else if stem == "questionpart.gapfill.gap.jme"@ {
            Some(DefaultQuestionFileType::QuestionPartGapFillGapJME)
        } else if stem == "questionpart.gapfill.gap.choose_one"@ {
            Some(DefaultQuestionFileType::QuestionPartGapFillGapChooseOne)
        } else if stem == "questionpart.gapfill.gap.choose_multiple"@ {
            Some(DefaultQuestionFileType::QuestionPartGapFillGapChooseMultiple)
        } else if stem == "questionpart.gapfill.gap.match_answers"@ {
            Some(DefaultQuestionFileType::QuestionPartGapFillGapMatchAnswersWithItems)
        } else if stem == "questionpart.gapfill.gap.number_entry"@ {
            Some(DefaultQuestionFileType::QuestionPartGapFillGapNumberEntry)
        } else if stem == "questionpart.gapfill.gap.pattern_match"@ {
            Some(DefaultQuestionFileType::QuestionPartGapFillGapPatternMatch)
        } else if stem == "questionpart.gapfill.gap.information"@ {
            Some(DefaultQuestionFileType::QuestionPartGapFillGapInformation)
        } else if stem == "questionpart.gapfill.gap.extension"@ {
            Some(DefaultQuestionFileType::QuestionPartGapFillGapExtension)
        } else {
            None
        }
    }

    fn from_stem(stem: &str) -> (r: Option<Self>) {
        if same_text(stem, "question") {
            Some(DefaultQuestionFileType::Question)
        } else if same_text(stem, "questionpart.jme") {
            Some(DefaultQuestionFileType::QuestionPartJME)
        } else if same_text(stem, "questionpart.gapfill") {
            Some(DefaultQuestionFileType::QuestionPartGapFill)
        } else if same_text(stem, "questionpart.choose_one") {
            Some(DefaultQuestionFileType::QuestionPartChooseOne)
        } else if same_text(stem, "questionpart.choose_multiple") {
            Some(DefaultQuestionFileType::QuestionPartChooseMultiple)
        } else if same_text(stem, "questionpart.match_answers") {
            Some(DefaultQuestionFileType::QuestionPartMatchAnswersWithItems)
        } else if same_text(stem, "questionpart.number_entry") {
            Some(DefaultQuestionFileType::QuestionPartNumberEntry)
        } else if same_text(stem, "questionpart.pattern_match") {
            Some(DefaultQuestionFileType::QuestionPartPatternMatch)
        } else if same_text(stem, "questionpart.information") {
            Some(DefaultQuestionFileType::QuestionPartInformation)
        } else if same_text(stem, "questionpart.extension") {
            Some(DefaultQuestionFileType::QuestionPartExtension)
        } else if same_text(stem, "questionpart.gapfill.gap.jme") {
            Some(DefaultQuestionFileType::QuestionPartGapFillGapJME)
        } else if same_text(stem, "questionpart.gapfill.gap.choose_one") {
            Some(DefaultQuestionFileType::QuestionPartGapFillGapChooseOne)
        } else if same_text(stem, "questionpart.gapfill.gap.choose_multiple") {
            Some(DefaultQuestionFileType::QuestionPartGapFillGapChooseMultiple)
        } else if same_text(stem, "questionpart.gapfill.gap.match_answers") {
            Some(DefaultQuestionFileType::QuestionPartGapFillGapMatchAnswersWithItems)
        } else if same_text(stem, "questionpart.gapfill.gap.number_entry") {
            Some(DefaultQuestionFileType::QuestionPartGapFillGapNumberEntry)
        } else if same_text(stem, "questionpart.gapfill.gap.pattern_match") {
            Some(DefaultQuestionFileType::QuestionPartGapFillGapPatternMatch)
        } else if same_text(stem, "questionpart.gapfill.gap.information") {
            Some(DefaultQuestionFileType::QuestionPartGapFillGapInformation)
        } else if same_text(stem, "questionpart.gapfill.gap.extension") {
            Some(DefaultQuestionFileType::QuestionPartGapFillGapExtension)
        } else {
            None
        }
    }
}

/// The name without `.yaml` of the file that holds the exam defaults of kind `k`.
pub open spec fn exam_kind_stem(k: DefaultExamFileType) -> Seq<char> {
    match k {
        DefaultExamFileType::SequentialNavigation => "navigation"@,
        DefaultExamFileType::MenuNavigation => "navigation.menu"@,
        DefaultExamFileType::DiagnosticNavigation => "navigation.diagnostic"@,
        DefaultExamFileType::Timing => "timing"@,
        DefaultExamFileType::Feedback => "feedback"@,
        DefaultExamFileType::NumbasSettings => "numbas_settings"@,
    }
}

impl DefaultExamFileType {
    /// The name without `.yaml` of the file that holds the defaults of this kind.
    pub fn file_stem(&self) -> (r: &'static str)
        ensures
            r@ == exam_kind_stem(*self),
    {
        match self {
            DefaultExamFileType::SequentialNavigation => "navigation",
            DefaultExamFileType::MenuNavigation => "navigation.menu",
            DefaultExamFileType::DiagnosticNavigation => "navigation.diagnostic",
            DefaultExamFileType::Timing => "timing",
            DefaultExamFileType::Feedback => "feedback",
            DefaultExamFileType::NumbasSettings => "numbas_settings",
        }
    }
}

/// Each kind of exam default file is recognised exactly by the name of its own file: a
/// name gives kind `k` when, and only when, it is the name of the file of `k`. So no two
/// names give one kind, and no name gives two.
pub proof fn lemma_exam_kinds_by_name(stem: Seq<char>, k: DefaultExamFileType)
    ensures
        <DefaultExamFileType as DefaultFileTypeMethods>::named(stem) == Some(k) <==> stem == exam_kind_stem(k),
{
    reveal_strlit("navigation");
    reveal_strlit("navigation.menu");
    reveal_strlit("navigation.diagnostic");
    reveal_strlit("timing");
    reveal_strlit("feedback");
    reveal_strlit("numbas_settings");
    assert("navigation"@.len() == 10);
    assert("navigation.menu"@.len() == 15);
    assert("navigation.diagnostic"@.len() == 21);
    assert("timing"@.len() == 6);
    assert("feedback"@.len() == 8);
    assert("numbas_settings"@.len() == 15);
    assert("navigation.menu"@[1] != "numbas_settings"@[1]);
}

/// The name without `.yaml` of the file that holds the question defaults of kind `k`.
pub open spec fn question_kind_stem(k: DefaultQuestionFileType) -> Seq<char> {
    match k {
        DefaultQuestionFileType::Question => "question"@,
        DefaultQuestionFileType::QuestionPartJME => "questionpart.jme"@,
        DefaultQuestionFileType::QuestionPartGapFill => "questionpart.gapfill"@,
        DefaultQuestionFileType::QuestionPartChooseOne => "questionpart.choose_one"@,
        DefaultQuestionFileType::QuestionPartChooseMultiple => "questionpart.choose_multiple"@,
        DefaultQuestionFileType::QuestionPartMatchAnswersWithItems => "questionpart.match_answers"@,
        DefaultQuestionFileType::QuestionPartNumberEntry => "questionpart.number_entry"@,
        DefaultQuestionFileType::QuestionPartPatternMatch => "questionpart.pattern_match"@,
        DefaultQuestionFileType::QuestionPartInformation => "questionpart.information"@,
        DefaultQuestionFileType::QuestionPartExtension => "questionpart.extension"@,
        DefaultQuestionFileType::QuestionPartGapFillGapJME => "questionpart.gapfill.gap.jme"@,
        DefaultQuestionFileType::QuestionPartGapFillGapChooseOne => "questionpart.gapfill.gap.choose_one"@,
        DefaultQuestionFileType::QuestionPartGapFillGapChooseMultiple => "questionpart.gapfill.gap.choose_multiple"@,
        DefaultQuestionFileType::QuestionPartGapFillGapMatchAnswersWithItems => "questionpart.gapfill.gap.match_answers"@,
        DefaultQuestionFileType::QuestionPartGapFillGapNumberEntry => "questionpart.gapfill.gap.number_entry"@,
        DefaultQuestionFileType::QuestionPartGapFillGapPatternMatch => "questionpart.gapfill.gap.pattern_match"@,
        DefaultQuestionFileType::QuestionPartGapFillGapInformation => "questionpart.gapfill.gap.information"@,
        DefaultQuestionFileType::QuestionPartGapFillGapExtension => "questionpart.gapfill.gap.extension"@,
    }
}

impl DefaultQuestionFileType {
    /// The name without `.yaml` of the file that holds the defaults of this kind.
    pub fn file_stem(&self) -> (r: &'static str)
        ensures
            r@ == question_kind_stem(*self),
    {
        match self {
            DefaultQuestionFileType::Question => "question",
            DefaultQuestionFileType::QuestionPartJME => "questionpart.jme",
            DefaultQuestionFileType::QuestionPartGapFill => "questionpart.gapfill",
            DefaultQuestionFileType::QuestionPartChooseOne => "questionpart.choose_one",
            DefaultQuestionFileType::QuestionPartChooseMultiple => "questionpart.choose_multiple",
            DefaultQuestionFileType::QuestionPartMatchAnswersWithItems => "questionpart.match_answers",
            DefaultQuestionFileType::QuestionPartNumberEntry => "questionpart.number_entry",
            DefaultQuestionFileType::QuestionPartPatternMatch => "questionpart.pattern_match",
            DefaultQuestionFileType::QuestionPartInformation => "questionpart.information",
            DefaultQuestionFileType::QuestionPartExtension => "questionpart.extension",
            DefaultQuestionFileType::QuestionPartGapFillGapJME => "questionpart.gapfill.gap.jme",
            DefaultQuestionFileType::QuestionPartGapFillGapChooseOne => "questionpart.gapfill.gap.choose_one",
            DefaultQuestionFileType::QuestionPartGapFillGapChooseMultiple => "questionpart.gapfill.gap.choose_multiple",
            DefaultQuestionFileType::QuestionPartGapFillGapMatchAnswersWithItems => "questionpart.gapfill.gap.match_answers",
            DefaultQuestionFileType::QuestionPartGapFillGapNumberEntry => "questionpart.gapfill.gap.number_entry",
            DefaultQuestionFileType::QuestionPartGapFillGapPatternMatch => "questionpart.gapfill.gap.pattern_match",
            DefaultQuestionFileType::QuestionPartGapFillGapInformation => "questionpart.gapfill.gap.information",
            DefaultQuestionFileType::QuestionPartGapFillGapExtension => "questionpart.gapfill.gap.extension",
        }
    }
}

/// Each kind of question default file is recognised exactly by the name of its own file: a
/// name gives kind `k` when, and only when, it is the name of the file of `k`. So no two
/// names give one kind, and no name gives two.
pub proof fn lemma_question_kinds_by_name(stem: Seq<char>, k: DefaultQuestionFileType)
    ensures
        <DefaultQuestionFileType as DefaultFileTypeMethods>::named(stem) == Some(k) <==> stem == question_kind_stem(k),
{
    reveal_strlit("question");
    reveal_strlit("questionpart.jme");
    reveal_strlit("questionpart.gapfill");
    reveal_strlit("questionpart.choose_one");
    reveal_strlit("questionpart.choose_multiple");
    reveal_strlit("questionpart.match_answers");
    reveal_strlit("questionpart.number_entry");
    reveal_strlit("questionpart.pattern_match");
    reveal_strlit("questionpart.information");
    reveal_strlit("questionpart.extension");
    reveal_strlit("questionpart.gapfill.gap.jme");
    reveal_strlit("questionpart.gapfill.gap.choose_one");
    reveal_strlit("questionpart.gapfill.gap.choose_multiple");
    reveal_strlit("questionpart.gapfill.gap.match_answers");
    reveal_strlit("questionpart.gapfill.gap.number_entry");
    reveal_strlit("questionpart.gapfill.gap.pattern_match");
    reveal_strlit("questionpart.gapfill.gap.information");
    reveal_strlit("questionpart.gapfill.gap.extension");
    assert("question"@.len() == 8);
    assert("questionpart.jme"@.len() == 16);
    assert("questionpart.gapfill"@.len() == 20);
    assert("questionpart.choose_one"@.len() == 23);
    assert("questionpart.choose_multiple"@.len() == 28);
    assert("questionpart.match_answers"@.len() == 26);
    assert("questionpart.number_entry"@.len() == 25);
    assert("questionpart.pattern_match"@.len() == 26);
    assert("questionpart.information"@.len() == 24);
    assert("questionpart.extension"@.len() == 22);
    assert("questionpart.gapfill.gap.jme"@.len() == 28);
    assert("questionpart.gapfill.gap.choose_one"@.len() == 35);
    assert("questionpart.gapfill.gap.choose_multiple"@.len() == 40);
    assert("questionpart.gapfill.gap.match_answers"@.len() == 38);
    assert("questionpart.gapfill.gap.number_entry"@.len() == 37);
    assert("questionpart.gapfill.gap.pattern_match"@.len() == 38);
    assert("questionpart.gapfill.gap.information"@.len() == 36);
    assert("questionpart.gapfill.gap.extension"@.len() == 34);
    assert("questionpart.choose_multiple"@[13] != "questionpart.gapfill.gap.jme"@[13]);
    assert("questionpart.match_answers"@[13] != "questionpart.pattern_match"@[13]);
    assert("questionpart.gapfill.gap.match_answers"@[25] != "questionpart.gapfill.gap.pattern_match"@[25]);
}

/// A default file: its kind and its path.
#[derive(Debug)]
pub struct DefaultFile<T> {
    pub file_type: T,
    pub path: FilePath,
}

impl<T: DefaultFileTypeMethods> DefaultFile<T> {
    /// The default file at `path`; `None` when the name of the file is not that of a default file.
    pub fn from_path(path: &FilePath) -> (r: Option<Self>)
        ensures
            match (match file_name_of(path@) {
                Some(name) => T::named(stem_of(name)),
                None => None,
            }) {
                Some(t) => r matches Some(d) && d.file_type == t && d.path@ == path@,
                None => r is None,
            },
    {
        match T::from_path(path) {
            Some(t) => Some(DefaultFile { file_type: t, path: path.clone() }),
            None => None,
        }
    }

    /// The default files among the files found in the `defaults` folders, in the order found.
    pub fn files(found: &Vec<FilePath>) -> (r: Vec<Self>)
        ensures
            r@.map_values(|d: DefaultFile<T>| (d.file_type, d.path@)) == select_defaults::<T>(
                found@.map_values(|p: FilePath| p@),
            ),
    {
        let ghost views = found@.map_values(|p: FilePath| p@);
        let mut r: Vec<Self> = Vec::new();
        let mut k: usize = 0;
        assert(views.take(0) =~= Seq::<Seq<Seq<char>>>::empty());
        while k < found.len()
            invariant
                k <= found@.len(),
                views == found@.map_values(|p: FilePath| p@),
                r@.map_values(|d: DefaultFile<T>| (d.file_type, d.path@)) == select_defaults::<T>(
                    views.take(k as int),
                ),
            decreases found@.len() - k,
        {
            assert(views.take(k + 1).drop_last() =~= views.take(k as int));
            assert(views.take(k + 1).last() == found@[k as int]@);
            let ghost before = r@;
            match Self::from_path(&found[k]) {
                Some(d) => {
                    r.push(d);
                    assert(r@.map_values(|d: DefaultFile<T>| (d.file_type, d.path@)) =~= before.map_values(
                        |d: DefaultFile<T>| (d.file_type, d.path@),
                    ).push((r@.last().file_type, r@.last().path@)));
                },
                None => {},
            }
            k += 1;
        }
        assert(views.take(found@.len() as int) =~= views);
        r
    }
}

/// The kind of default file at a path, if it is one.
pub open spec fn default_kind<T: DefaultFileTypeMethods>(p: Seq<Seq<char>>) -> Option<T> {
    match file_name_of(p) {
        Some(name) => T::named(stem_of(name)),
        None => None,
    }
}

/// The default files among the paths, with their kinds, in order.
pub open spec fn select_defaults<T: DefaultFileTypeMethods>(s: Seq<Seq<Seq<char>>>) -> Seq<
    (T, Seq<Seq<char>>),
>
    decreases s.len(),
{
    if s.len() == 0 {
        Seq::empty()
    } else {
        let rest = select_defaults::<T>(s.drop_last());
        match default_kind::<T>(s.last()) {
            Some(t) => rest.push((t, s.last())),
            None => rest,
        }
    }
}

impl<T> DefaultFile<T> {
    /// The path of this default file.
    pub fn get_path(&self) -> (r: FilePath)
        ensures
            r@ == self.path@,
    {
        self.path.clone()
    }
}

/// The path with its last name replaced by `name`, or `name` added when it ends in no name
/// (`Path::with_file_name`).
pub open spec fn with_file_name(p: Seq<Seq<char>>, name: Seq<char>) -> Seq<Seq<char>> {
    if p.len() > 0 && is_name(p.last()) {
        p.drop_last().push(name)
    } else {
        p.push(name)
    }
}

/// The folders that can hold default files for the file at `path`: next to the file, and next
/// to each folder that encloses it.
pub fn default_folders(path: &FilePath) -> (r: Vec<FilePath>)
    ensures
        r@.len() == crate::path::ancestor_count(path@),
        forall|i: int| 0 <= i < r@.len() ==> #[trigger] r@[i]@ == with_file_name(
            crate::path::ancestor(path@, i),
            defaults_folder(),
        ),
{
    let all = crate::path::ancestors(path);
    let mut r: Vec<FilePath> = Vec::new();
    let mut i: usize = 0;
    while i < all.len()
        invariant
            i <= all@.len(),
            all@.len() == crate::path::ancestor_count(path@),
            forall|j: int| 0 <= j < all@.len() ==> #[trigger] all@[j]@ == crate::path::ancestor(path@, j),
            r@.len() == i,
            forall|j: int| 0 <= j < i ==> #[trigger] r@[j]@ == with_file_name(
                crate::path::ancestor(path@, j),
                defaults_folder(),
            ),
        decreases all@.len() - i,
    {
        let a = &all[i];
        let mut comps: Vec<String> = Vec::new();
        let n = a.components.len();
        let has_name = match a.file_name() {
            Some(_) => true,
            None => false,
        };
        let keep = if has_name { n - 1 } else { n };
        let mut j: usize = 0;
        while j < keep
            invariant
                j <= keep <= n,
                n == a@.len(),
                comps@.map_values(|p: String| p@) == a@.take(j as int),
            decreases keep - j,
        {
            let c = a.components[j].clone();
            assert(c@ == a@[j as int]);
            let ghost before = comps@;
            comps.push(c);
            assert(comps@.map_values(|p: String| p@) =~= before.map_values(|p: String| p@).push(c@));
            assert(a@.take(j + 1) =~= a@.take(j as int).push(a@[j as int]));
            j += 1;
        }
        let ghost before = comps@;
        let d = crate::text::owned("defaults");
        comps.push(d);
        proof {
            assert(comps@.map_values(|p: String| p@) =~= before.map_values(|p: String| p@).push(
                "defaults"@,
            ));
            if has_name {
                assert(a@.take(n - 1) =~= a@.drop_last());
            } else {
                assert(a@.take(n as int) =~= a@);
            }
        }
        r.push(FilePath { components: comps });
        i += 1;
    }
    r
}

/// The paths, each once, in the order in which they first occur.
pub open spec fn distinct_paths(s: Seq<Seq<Seq<char>>>) -> Seq<Seq<Seq<char>>>
    decreases s.len(),
{
    if s.len() == 0 {
        Seq::empty()
    } else {
        let rest = distinct_paths(s.drop_last());
        if rest.contains(s.last()) {
            rest
        } else {
            rest.push(s.last())
        }
    }
}

/// The files found in the `defaults` folders, each once, in the order in which they were first
/// found.
pub fn default_file_paths(found: &Vec<FilePath>) -> (r: Vec<FilePath>)
    ensures
        r@.map_values(|p: FilePath| p@) == distinct_paths(found@.map_values(|p: FilePath| p@)),
{
    let ghost views = found@.map_values(|p: FilePath| p@);
    let mut r: Vec<FilePath> = Vec::new();
    let mut k: usize = 0;
    assert(views.take(0) =~= Seq::<Seq<Seq<char>>>::empty());
    while k < found.len()
        invariant
            k <= found@.len(),
            views == found@.map_values(|p: FilePath| p@),
            r@.map_values(|p: FilePath| p@) == distinct_paths(views.take(k as int)),
        decreases found@.len() - k,
    {
        let ghost rv = r@.map_values(|p: FilePath| p@);
        assert(views.take(k + 1).drop_last() =~= views.take(k as int));
        assert(views.take(k + 1).last() == found@[k as int]@);
        let mut seen = false;
        let mut i: usize = 0;
        while i < r.len()
            invariant
                i <= r@.len(),
                k < found@.len(),
                rv == r@.map_values(|p: FilePath| p@),
                seen == rv.take(i as int).contains(found@[k as int]@),
            decreases r@.len() - i,
        {
            let same = r[i].same_as(&found[k]);
            proof {
                assert(rv.take(i + 1) =~= rv.take(i as int).push(rv[i as int]));
                if rv.take(i + 1).contains(found@[k as int]@) && !rv.take(i as int).contains(
                    found@[k as int]@,
                ) {
                    let m = choose|m: int|
                        0 <= m < rv.take(i + 1).len() && #[trigger] rv.take(i + 1)[m]
                            == found@[k as int]@;
                    if m < i {
                        assert(rv.take(i as int)[m] == found@[k as int]@);
                    }
                }
                if same {
                    assert(rv.take(i + 1)[i as int] == found@[k as int]@);
                }
                if seen {
                    let m = choose|m: int|
                        0 <= m < rv.take(i as int).len() && #[trigger] rv.take(i as int)[m]
                            == found@[k as int]@;
                    assert(rv.take(i + 1)[m] == found@[k as int]@);
                }
            }
            seen = seen || same;
            i += 1;
        }
        assert(rv.take(r@.len() as int) =~= rv);
        if !seen {
            let p = found[k].clone();
            let ghost before = r@;
            r.push(p);
            assert(r@.map_values(|p: FilePath| p@) =~= before.map_values(|p: FilePath| p@).push(
                found@[k as int]@,
            ));
        }
        k += 1;
    }
    assert(views.take(found@.len() as int) =~= views);
    r
}

} // verus!
