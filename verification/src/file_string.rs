//! File strings as they are read from the yaml: a literal string, or `file:<path>`, whose content
//! is read later, per locale.
use crate::input::{no_problems, CheckView, Input};
use crate::input_check::{leaf_path, opt_view, InputCheckResult};
use crate::path::{join_path, FilePath, RumbasPath};
use crate::repo::{FileToLoad, LoadedFile};
use crate::string_map::StringMap;
use crate::translatable::FileString;
use crate::value::{second_piece, second_piece_of};
use vstd::prelude::*;

verus! {

/// A file string as read from the yaml, with the error found while reading it, if any.
#[derive(Debug, PartialEq)]
pub struct FileStringInput {
    pub file_name: Option<String>,
    pub content: Option<String>,
    pub translated_content: StringMap<String>,
    pub error_message: Option<String>,
}

/// How a text in the yaml is read: `file:` followed by a file name refers to that file; a bare
/// `file:` misses its file name; any other text is a literal. Gives the file name, the content and
/// the error.
pub open spec fn read_file_string(s: Seq<char>) -> (Option<Seq<char>>, Option<Seq<char>>, Option<Seq<char>>) {
    if "file:"@.is_prefix_of(s) {
        if s == "file:"@ {
            (Some(Seq::empty()), None, Some("Missing filename"@))
        } else {
            (Some(second_piece(s, "file:"@)), None, None)
        }
    } else {
        (None, Some(s), None)
    }
}

/// The file that a file string refers to: `questions/<file name>` in the repository of the main
/// file, read per locale.
pub open spec fn file_to_read(
    file_name: Seq<char>,
    main: (Seq<Seq<char>>, Seq<Seq<char>>, Seq<Seq<char>>),
) -> (Seq<Seq<char>>, Seq<Seq<char>>, Seq<Seq<char>>) {
    let project = join_path(seq!["questions"@], crate::path::components_of(file_name));
    (main.0, project, join_path(main.0, project))
}

impl FileStringInput {
    /// A literal string.
    pub fn s(content: &str) -> (r: Self)
        ensures
            r.file_name is None,
            opt_view(r.content) == Some(content@),
            r.translated_content.entries_spec().len() == 0,
            r.error_message is None,
    {
        FileStringInput {
            file_name: None,
            content: Some(crate::text::owned(content)),
            translated_content: StringMap::new(),
            error_message: None,
        }
    }

    /// Reads a text from the yaml.
    pub fn from_text(s: &str) -> (r: Self)
        ensures
            (opt_view(r.file_name), opt_view(r.content), opt_view(r.error_message))
                == read_file_string(s@),
            r.translated_content.entries_spec().len() == 0,
    {
        let sv = crate::text::chars_of(s);
        let prefix = crate::text::chars_of("file:");
        proof {
            reveal_strlit("file:");
            reveal_strlit("Missing filename");
        }
        if prefix.len() <= sv.len() && crate::text::matches_at(&sv, 0, &prefix) {
            assert("file:"@.is_prefix_of(s@));
            if sv.len() == prefix.len() {
                assert(s@ =~= "file:"@);
                FileStringInput {
                    file_name: Some(String::new()),
                    content: None,
                    translated_content: StringMap::new(),
                    error_message: Some(crate::text::owned("Missing filename")),
                }
            } else {
                assert(s@ != "file:"@);
                let piece = second_piece_of(&sv, &prefix);
                FileStringInput {
                    file_name: Some(crate::text::string_of(&piece)),
                    content: None,
                    translated_content: StringMap::new(),
                    error_message: None,
                }
            }
        } else {
            proof {
                if "file:"@.is_prefix_of(s@) {
                    assert(sv@.subrange(0, prefix@.len() as int) =~= prefix@);
                }
            }
            Self::s(s)
        }
    }

    /// The text that stands for this file string in the yaml: `file:<name>` for a reference, the
    /// content for a literal.
    pub fn to_text(&self) -> (r: String)
        requires
            self.file_name is Some || self.content is Some,
        ensures
            r@ == match self.file_name {
                Some(n) => "file:"@ + n@,
                None => self.content->Some_0@,
            },
    {
        match &self.file_name {
            Some(n) => {
                let mut r = crate::text::owned("file:");
                r.append(n.as_str());
                r
            },
            None => match &self.content {
                Some(c) => c.clone(),
                None => vstd::pervasive::unreached(),
            },
        }
    }

    /// Whether the content is known: read, given, or replaced by an error.
    pub fn is_loaded(&self) -> (r: bool)
        ensures
            r == (self.content is Some || self.translated_content.entries_spec().len() > 0
                || self.error_message is Some),
    {
        self.content.is_some() || !self.translated_content.is_empty()
            || self.error_message.is_some()
    }

    /// The file to read for this file string, for the main file `main`.
    pub fn file_to_read(&self, main: &RumbasPath) -> (r: Option<FileToLoad>)
        ensures
            match self.file_name {
                Some(n) => r matches Some(f) && f.locale_dependant && f.file_path@ == file_to_read(
                    n@,
                    main@,
                ),
                None => r is None,
            },
    {
        match &self.file_name {
            Some(n) => {
                let questions = FilePath::from_text("questions");
                proof {
                    reveal_strlit("questions");
                    assert(crate::path::components_of("questions"@) =~= seq!["questions"@]) by {
                        assert(crate::path::scan("questions"@, 9).1 =~= "questions"@) by {
                            reveal_with_fuel(crate::path::scan, 10);
                        }
                        assert(crate::path::scan("questions"@, 9).0 =~= Seq::<Seq<char>>::empty())
                            by {
                            reveal_with_fuel(crate::path::scan, 10);
                        }
                    }
                }
                let name_path = FilePath::from_text(n.as_str());
                let project = questions.join(&name_path);
                Some(FileToLoad { file_path: main.keep_root(&project), locale_dependant: true })
            },
            None => None,
        }
    }

    /// The files to read for this file string: none once its content is known.
    pub fn files_to_load(&self, main: &RumbasPath) -> (r: Vec<FileToLoad>)
        ensures
            if self.content is Some || self.translated_content.entries_spec().len() > 0
                || self.error_message is Some || self.file_name is None {
                r@.len() == 0
            } else {
                r@.len() == 1 && r@[0].locale_dependant && r@[0].file_path@ == file_to_read(
                    self.file_name->Some_0@,
                    main@,
                )
            },
    {
        let mut r: Vec<FileToLoad> = Vec::new();
        if !self.is_loaded() {
            match self.file_to_read(main) {
                Some(f) => r.push(f),
                None => {},
            }
        }
        r
    }

    /// Fills in the content from the file that was read for it, `found` (`None`: the file could
    /// not be found, which is recorded as an error). Nothing changes once the content is known or
    /// when the string refers to no file.
    pub fn insert_loaded_file(&mut self, main: &RumbasPath, found: Option<&LoadedFile>)
        ensures
            final(self).file_name == old(self).file_name,
            if old(self).content is Some || old(self).translated_content.entries_spec().len() > 0
                || old(self).error_message is Some || old(self).file_name is None {
                *final(self) == *old(self)
            } else {
                match found {
                    Some(LoadedFile::Normal(n)) => final(self).content == Some(n.content)
                        && final(self).translated_content == old(self).translated_content
                        && final(self).error_message == old(self).error_message,
                    Some(LoadedFile::Localized(l)) => final(self).content == l.content
                        && final(self).translated_content.entries_spec()
                        == l.localized_content.entries_spec() && final(self).error_message
                        == old(self).error_message,
                    None => {
                        &&& final(self).content == old(self).content
                        &&& final(self).translated_content == old(self).translated_content
                        &&& final(self).error_message matches Some(e) && e@ == "File not found: "@
                            + crate::path::path_display(
                            file_to_read(old(self).file_name->Some_0@, main@).1,
                        )
                    },
                }
            },
    {
        if self.is_loaded() {
            return;
        }
        match self.file_to_read(main) {
            None => {},
            Some(file) => match found {
                Some(LoadedFile::Normal(n)) => {
                    self.content = Some(n.content.clone());
                },
                Some(LoadedFile::Localized(l)) => {
                    self.content = crate::input_check::clone_opt(&l.content);
                    self.translated_content = l.localized_content.copy();
                },
                None => {
                    let mut e = crate::text::owned("File not found: ");
                    e.append(file.file_path.display().as_str());
                    self.error_message = Some(e);
                },
            },
        }
    }
}

impl Input for FileStringInput {
    type Normal = FileString;

    /// The error found while reading, as a missing value named by the error.
    open spec fn missing(&self) -> CheckView {
        match self.error_message {
            Some(e) => (seq![leaf_path(Some(e@))], Seq::empty()),
            None => no_problems(),
        }
    }

    open spec fn normal_is(&self, n: FileString) -> bool {
        n.file_name == self.file_name && n.content == self.content && n.translated_content.entries_spec()
            == self.translated_content.entries_spec()
    }

    open spec fn input_of(n: FileString, i: FileStringInput) -> bool {
        i.file_name == n.file_name && i.content == n.content && i.translated_content.entries_spec()
            == n.translated_content.entries_spec() && i.error_message is None
    }

    proof fn lemma_input_of_normal(n: FileString, i: FileStringInput) {
    }

    fn to_normal(&self) -> (r: FileString) {
        FileString {
            file_name: crate::input_check::clone_opt(&self.file_name),
            content: crate::input_check::clone_opt(&self.content),
            translated_content: self.translated_content.copy(),
        }
    }

    fn from_normal(normal: FileString) -> (r: FileStringInput) {
        FileStringInput {
            file_name: normal.file_name,
            content: normal.content,
            translated_content: normal.translated_content,
            error_message: None,
        }
    }

    fn find_missing(&self) -> (r: InputCheckResult) {
        match &self.error_message {
            Some(e) => InputCheckResult::from_missing(Some(e.clone())),
            None => {
                let r = InputCheckResult::empty();
                assert(r@ =~= no_problems());
                r
            },
        }
    }
}

} // verus!
