//! The result of checking read data for missing translations and invalid JME expressions.
use crate::input_check::{clone_opt, clone_strings, leaf_path, opt_view, path_text, prefix_path, PathView};
use crate::text::{join, join_spec};
use vstd::prelude::*;

verus! {

/// Where in the input a problem was found: the names of the enclosing fields (outermost first)
/// and, optionally, the name of the field itself.
#[derive(Debug, PartialEq)]
pub struct RumbasCheckPath {
    parts: Vec<String>,
    last_part: Option<String>,
}

impl View for RumbasCheckPath {
    type V = PathView;

    closed spec fn view(&self) -> PathView {
        (self.parts@.map_values(|p: String| p@), opt_view(self.last_part))
    }
}

impl Clone for RumbasCheckPath {
    fn clone(&self) -> (r: Self)
        ensures
            r@ == self@,
    {
        let r = RumbasCheckPath {
            parts: clone_strings(&self.parts),
            last_part: clone_opt(&self.last_part),
        };
        assert(r@.0 =~= self@.0);
        r
    }
}

impl RumbasCheckPath {
    /// A path with no enclosing fields and the given last part.
    pub fn with_last(os: Option<String>) -> (r: Self)
        ensures
            r@ == leaf_path(opt_view(os)),
    {
        let r = RumbasCheckPath { parts: Vec::new(), last_part: os };
        assert(r@.0 =~= Seq::<Seq<char>>::empty());
        r
    }

    /// The empty path.
    pub fn without_last() -> (r: Self)
        ensures
            r@ == leaf_path(None),
    {
        Self::with_last(None)
    }

    /// Puts an enclosing field name in front of the path.
    pub fn add(&mut self, s: String)
        ensures
            final(self)@ == prefix_path(old(self)@, s@),
    {
        let ghost sv = s@;
        self.parts.insert(0, s);
        assert(self@.0 =~= seq![sv] + old(self)@.0);
    }

    /// The path as text: parts joined by dots, followed by the last part.
    pub fn to_string(&self) -> (r: String)
        ensures
            r@ == path_text(self@.0, self@.1),
    {
        let base = join(&self.parts, ".");
        proof {
            reveal_strlit(".");
            assert("."@ =~= seq!['.']);
            assert(self.parts@.map_values(|p: String| p@).len() == self.parts@.len());
        }
        match &self.last_part {
            Some(e) => {
                if self.parts.len() == 0 {
                    e.clone()
                } else {
                    let mut r = base;
                    r.append(".");
                    r.append(e.as_str());
                    assert(r@ =~= join_spec(self@.0, seq!['.']) + seq!['.'] + e@);
                    r
                }
            },
            None => base,
        }
    }
}

/// A translation that is missing.
#[derive(Debug, PartialEq)]
pub struct RumbasCheckMissingData {
    path: RumbasCheckPath,
}

impl View for RumbasCheckMissingData {
    type V = PathView;

    closed spec fn view(&self) -> PathView {
        self.path@
    }
}

impl Clone for RumbasCheckMissingData {
    fn clone(&self) -> (r: Self)
        ensures
            r@ == self@,
    {
        RumbasCheckMissingData { path: self.path.clone() }
    }
}

impl RumbasCheckMissingData {
    /// The same value with an enclosing field name in front of its path.
    fn prefixed(&self, s: &String) -> (r: Self)
        ensures
            r@ == prefix_path(self@, s@),
    {
        let mut p = self.path.clone();
        p.add(s.clone());
        RumbasCheckMissingData { path: p }
    }

    /// The path as text.
    pub fn to_string(&self) -> (r: String)
        ensures
            r@ == path_text(self@.0, self@.1),
    {
        self.path.to_string()
    }
}

/// An invalid JME expression: its path and the message of the error that parsing it gave.
pub type InvalidJMEView = (PathView, Seq<char>);

/// A JME expression that could not be parsed.
#[derive(Debug, PartialEq)]
pub struct RumbasCheckInvalidJMEStringData {
    path: RumbasCheckPath,
    error: String,
}

impl View for RumbasCheckInvalidJMEStringData {
    type V = InvalidJMEView;

    closed spec fn view(&self) -> InvalidJMEView {
        (self.path@, self.error@)
    }
}

impl Clone for RumbasCheckInvalidJMEStringData {
    fn clone(&self) -> (r: Self)
        ensures
            r@ == self@,
    {
        RumbasCheckInvalidJMEStringData { path: self.path.clone(), error: self.error.clone() }
    }
}

impl RumbasCheckInvalidJMEStringData {
    /// The same expression with an enclosing field name in front of its path.
    fn prefixed(&self, s: &String) -> (r: Self)
        ensures
            r@ == (prefix_path(self@.0, s@), self@.1),
    {
        let mut p = self.path.clone();
        p.add(s.clone());
        RumbasCheckInvalidJMEStringData { path: p, error: self.error.clone() }
    }

    /// The description of the invalid expression: the path, then the error message.
    pub fn to_string(&self) -> (r: String)
        ensures
            r@ == path_text(self@.0.0, self@.0.1) + "\n With error:\n"@ + self@.1,
    {
        let mut r = self.path.to_string();
        r.append("\n With error:\n");
        r.append(self.error.as_str());
        r
    }
}

/// Copies a list of missing values.
fn clone_missing(v: &Vec<RumbasCheckMissingData>) -> (r: Vec<RumbasCheckMissingData>)
    ensures
        r@.map_values(|m: RumbasCheckMissingData| m@) == v@.map_values(|m: RumbasCheckMissingData| m@),
{
    let mut r: Vec<RumbasCheckMissingData> = Vec::new();
    let mut i: usize = 0;
    while i < v.len()
        invariant
            i <= v.len(),
            r@.len() == i,
            forall|j: int| 0 <= j < i ==> #[trigger] r@[j]@ == v@[j]@,
        decreases v.len() - i,
    {
        r.push(v[i].clone());
        i += 1;
    }
    assert(r@.map_values(|m: RumbasCheckMissingData| m@) =~= v@.map_values(
        |m: RumbasCheckMissingData| m@,
    ));
    r
}

/// Copies a list of invalid expressions.
fn clone_invalid(v: &Vec<RumbasCheckInvalidJMEStringData>) -> (r: Vec<RumbasCheckInvalidJMEStringData>)
    ensures
        r@.map_values(|m: RumbasCheckInvalidJMEStringData| m@) == v@.map_values(
            |m: RumbasCheckInvalidJMEStringData| m@,
        ),
{
    let mut r: Vec<RumbasCheckInvalidJMEStringData> = Vec::new();
    let mut i: usize = 0;
    while i < v.len()
        invariant
            i <= v.len(),
            r@.len() == i,
            forall|j: int| 0 <= j < i ==> #[trigger] r@[j]@ == v@[j]@,
        decreases v.len() - i,
    {
        r.push(v[i].clone());
        i += 1;
    }
    assert(r@.map_values(|m: RumbasCheckInvalidJMEStringData| m@) =~= v@.map_values(
        |m: RumbasCheckInvalidJMEStringData| m@,
    ));
    r
}

/// The problems found in read data: missing translations and JME expressions that could not be parsed.
#[derive(Debug, PartialEq)]
pub struct RumbasCheckResult {
    missing_translations: Vec<RumbasCheckMissingData>,
    invalid_jme_strings: Vec<RumbasCheckInvalidJMEStringData>,
}

impl View for RumbasCheckResult {
    type V = (Seq<PathView>, Seq<InvalidJMEView>);

    closed spec fn view(&self) -> Self::V {
        (
            self.missing_translations@.map_values(|m: RumbasCheckMissingData| m@),
            self.invalid_jme_strings@.map_values(|m: RumbasCheckInvalidJMEStringData| m@),
        )
    }
}

impl Clone for RumbasCheckResult {
    fn clone(&self) -> (r: Self)
        ensures
            r@ == self@,
    {
        RumbasCheckResult {
            missing_translations: clone_missing(&self.missing_translations),
            invalid_jme_strings: clone_invalid(&self.invalid_jme_strings),
        }
    }
}

impl RumbasCheckResult {
    /// One missing translation, for the locale `os` when one is given.
    pub fn from_missing_translation(os: Option<String>) -> (r: RumbasCheckResult)
        ensures
            r@ == (seq![leaf_path(opt_view(os))], Seq::<InvalidJMEView>::empty()),
    {
        let mut m = Vec::new();
        m.push(RumbasCheckMissingData { path: RumbasCheckPath::with_last(os) });
        let r = RumbasCheckResult { missing_translations: m, invalid_jme_strings: Vec::new() };
        assert(r@.0 =~= seq![leaf_path(opt_view(os))]);
        assert(r@.1 =~= Seq::<InvalidJMEView>::empty());
        r
    }

    /// One invalid JME expression, with the message of the error that parsing it gave.
    pub fn from_invalid_jme(error: String) -> (r: RumbasCheckResult)
        ensures
            r@ == (Seq::<PathView>::empty(), seq![(leaf_path(None), error@)]),
    {
        let ghost e = (leaf_path(None), error@);
        let mut v = Vec::new();
        v.push(RumbasCheckInvalidJMEStringData { path: RumbasCheckPath::without_last(), error });
        let r = RumbasCheckResult { missing_translations: Vec::new(), invalid_jme_strings: v };
        assert(r@.0 =~= Seq::<PathView>::empty());
        assert(r@.1 =~= seq![e]);
        r
    }

    /// No problems.
    pub fn empty() -> (r: RumbasCheckResult)
        ensures
            r@ == (Seq::<PathView>::empty(), Seq::<InvalidJMEView>::empty()),
    {
        let r = RumbasCheckResult { missing_translations: Vec::new(), invalid_jme_strings: Vec::new() };
        assert(r@.0 =~= Seq::<PathView>::empty());
        assert(r@.1 =~= Seq::<InvalidJMEView>::empty());
        r
    }

    /// Whether no problem was found.
    pub fn is_empty(&self) -> (r: bool)
        ensures
            r == (self@.0.len() == 0 && self@.1.len() == 0),
    {
        self.missing_translations.len() == 0 && self.invalid_jme_strings.len() == 0
    }

    /// Puts the field name `s` in front of the path of every problem.
    pub fn extend_path(&mut self, s: String)
        ensures
            final(self)@.0 == old(self)@.0.map_values(|p: PathView| prefix_path(p, s@)),
            final(self)@.1 == old(self)@.1.map_values(
                |e: InvalidJMEView| (prefix_path(e.0, s@), e.1),
            ),
    {
        let mut missing: Vec<RumbasCheckMissingData> = Vec::new();
        let mut i: usize = 0;
        while i < self.missing_translations.len()
            invariant
                i <= self.missing_translations.len(),
                self.missing_translations@ == old(self).missing_translations@,
                missing@.len() == i,
                forall|j: int|
                    0 <= j < i ==> #[trigger] missing@[j]@ == prefix_path(
                        self.missing_translations@[j]@,
                        s@,
                    ),
            decreases self.missing_translations.len() - i,
        {
            missing.push(self.missing_translations[i].prefixed(&s));
            i += 1;
        }
        let mut invalid: Vec<RumbasCheckInvalidJMEStringData> = Vec::new();
        let mut i: usize = 0;
        while i < self.invalid_jme_strings.len()
            invariant
                i <= self.invalid_jme_strings.len(),
                self.invalid_jme_strings@ == old(self).invalid_jme_strings@,
                invalid@.len() == i,
                forall|j: int|
                    0 <= j < i ==> #[trigger] invalid@[j]@ == (
                        prefix_path(self.invalid_jme_strings@[j]@.0, s@),
                        self.invalid_jme_strings@[j]@.1,
                    ),
            decreases self.invalid_jme_strings.len() - i,
        {
            invalid.push(self.invalid_jme_strings[i].prefixed(&s));
            i += 1;
        }
        self.missing_translations = missing;
        self.invalid_jme_strings = invalid;
        assert(self@.0 =~= old(self)@.0.map_values(|p: PathView| prefix_path(p, s@)));
        assert(self@.1 =~= old(self)@.1.map_values(
            |e: InvalidJMEView| (prefix_path(e.0, s@), e.1),
        ));
    }

    /// Adds the problems of `other` after those of `self`.
    pub fn union(&mut self, other: &Self)
        ensures
            final(self)@ == (old(self)@.0 + other@.0, old(self)@.1 + other@.1),
    {
        let mut m = clone_missing(&other.missing_translations);
        self.missing_translations.append(&mut m);
        let mut v = clone_invalid(&other.invalid_jme_strings);
        self.invalid_jme_strings.append(&mut v);
        assert(self@.0 =~= old(self)@.0 + other@.0);
        assert(self@.1 =~= old(self)@.1 + other@.1);
    }

    /// The missing translations.
    pub fn missing_translations(&self) -> (r: Vec<RumbasCheckMissingData>)
        ensures
            r@.map_values(|m: RumbasCheckMissingData| m@) == self@.0,
    {
        clone_missing(&self.missing_translations)
    }

    /// The invalid JME expressions.
    pub fn invalid_jme_fields(&self) -> (r: Vec<RumbasCheckInvalidJMEStringData>)
        ensures
            r@.map_values(|m: RumbasCheckInvalidJMEStringData| m@) == self@.1,
    {
        clone_invalid(&self.invalid_jme_strings)
    }
}

} // verus!
