//! The result of checking optional data for missing and invalid values.
use crate::input_check::{clone_opt, clone_strings, leaf_path, opt_view, path_text, prefix_path, PathView};
use crate::text::{join, join_spec};
use vstd::prelude::*;

verus! {

/// Where in the input a problem was found: the names of the enclosing fields (outermost first)
/// and, optionally, the name of the field itself.
#[derive(Debug, PartialEq)]
pub struct OptionalCheckPath {
    parts: Vec<String>,
    last_part: Option<String>,
}

impl View for OptionalCheckPath {
    type V = PathView;

    closed spec fn view(&self) -> PathView {
        (self.parts@.map_values(|p: String| p@), opt_view(self.last_part))
    }
}

impl Clone for OptionalCheckPath {
    fn clone(&self) -> (r: Self)
        ensures
            r@ == self@,
    {
        let r = OptionalCheckPath {
            parts: clone_strings(&self.parts),
            last_part: clone_opt(&self.last_part),
        };
        assert(r@.0 =~= self@.0);
        r
    }
}

impl OptionalCheckPath {
    /// A path with no enclosing fields and the given last part.
    pub fn with_last(os: Option<String>) -> (r: Self)
        ensures
            r@ == leaf_path(opt_view(os)),
    {
        let r = OptionalCheckPath { parts: Vec::new(), last_part: os };
        assert(r@.0 =~= Seq::<Seq<char>>::empty());
        r
    }

    /// The empty path.
    pub fn without_last() -> (r: Self)
        ensures
            r@ == leaf_path(None),
    {
        Self::with_last(None)
    }

    /// Puts an enclosing field name in front of the path.
    pub fn add(&mut self, s: String)
        ensures
            final(self)@ == prefix_path(old(self)@, s@),
    {
        let ghost sv = s@;
        self.parts.insert(0, s);
        assert(self@.0 =~= seq![sv] + old(self)@.0);
    }

    /// The path as text: parts joined by dots, followed by the last part.
    pub fn to_string(&self) -> (r: String)
        ensures
            r@ == path_text(self@.0, self@.1),
    {
        let base = join(&self.parts, ".");
        proof {
            reveal_strlit(".");
            assert("."@ =~= seq!['.']);
            assert(self.parts@.map_values(|p: String| p@).len() == self.parts@.len());
        }
        match &self.last_part {
            Some(e) => {
                if self.parts.len() == 0 {
                    e.clone()
                } else {
                    let mut r = base;
                    r.append(".");
                    r.append(e.as_str());
                    assert(r@ =~= join_spec(self@.0, seq!['.']) + seq!['.'] + e@);
                    r
                }
            },
            None => base,
        }
    }
}

/// A value that is missing from the optional data.
#[derive(Debug, PartialEq)]
pub struct OptionalCheckMissingData {
    path: OptionalCheckPath,
}

impl View for OptionalCheckMissingData {
    type V = PathView;

    closed spec fn view(&self) -> PathView {
        self.path@
    }
}

impl Clone for OptionalCheckMissingData {
    fn clone(&self) -> (r: Self)
        ensures
            r@ == self@,
    {
        OptionalCheckMissingData { path: self.path.clone() }
    }
}

impl OptionalCheckMissingData {
    /// The same value with an enclosing field name in front of its path.
    fn prefixed(&self, s: &String) -> (r: Self)
        ensures
            r@ == prefix_path(self@, s@),
    {
        let mut p = self.path.clone();
        p.add(s.clone());
        OptionalCheckMissingData { path: p }
    }

    /// The path as text.
    pub fn to_string(&self) -> (r: String)
        ensures
            r@ == path_text(self@.0, self@.1),
    {
        self.path.to_string()
    }
}

/// An invalid value: its path and the yaml of the value when it could be written.
pub type InvalidYamlView = (PathView, Option<Seq<char>>);

/// A value in the optional data that could not be read.
#[derive(Debug, PartialEq)]
pub struct OptionalCheckInvalidYamlData {
    path: OptionalCheckPath,
    data: Option<String>,
}

impl View for OptionalCheckInvalidYamlData {
    type V = InvalidYamlView;

    closed spec fn view(&self) -> InvalidYamlView {
        (self.path@, opt_view(self.data))
    }
}

impl Clone for OptionalCheckInvalidYamlData {
    fn clone(&self) -> (r: Self)
        ensures
            r@ == self@,
    {
        OptionalCheckInvalidYamlData { path: self.path.clone(), data: clone_opt(&self.data) }
    }
}

impl OptionalCheckInvalidYamlData {
    /// The same value with an enclosing field name in front of its path.
    fn prefixed(&self, s: &String) -> (r: Self)
        ensures
            r@ == (prefix_path(self@.0, s@), self@.1),
    {
        let mut p = self.path.clone();
        p.add(s.clone());
        OptionalCheckInvalidYamlData { path: p, data: clone_opt(&self.data) }
    }

    /// The description of the invalid value: the path, then the yaml of the value when it could be
    /// written.
    pub fn to_string(&self) -> (r: String)
        ensures
            r@ == match self@.1 {
                Some(d) => path_text(self@.0.0, self@.0.1) + "\n With yaml:\n"@ + d,
                None => path_text(self@.0.0, self@.0.1),
            },
    {
        let mut r = self.path.to_string();
        if let Some(d) = &self.data {
            r.append("\n With yaml:\n");
            r.append(d.as_str());
        }
        r
    }
}

/// Copies a list of missing values.
fn clone_missing(v: &Vec<OptionalCheckMissingData>) -> (r: Vec<OptionalCheckMissingData>)
    ensures
        r@.map_values(|m: OptionalCheckMissingData| m@) == v@.map_values(|m: OptionalCheckMissingData| m@),
{
    let mut r: Vec<OptionalCheckMissingData> = Vec::new();
    let mut i: usize = 0;
    while i < v.len()
        invariant
            i <= v.len(),
            r@.len() == i,
            forall|j: int| 0 <= j < i ==> #[trigger] r@[j]@ == v@[j]@,
        decreases v.len() - i,
    {
        r.push(v[i].clone());
        i += 1;
    }
    assert(r@.map_values(|m: OptionalCheckMissingData| m@) =~= v@.map_values(
        |m: OptionalCheckMissingData| m@,
    ));
    r
}

/// Copies a list of invalid values.
fn clone_invalid(v: &Vec<OptionalCheckInvalidYamlData>) -> (r: Vec<OptionalCheckInvalidYamlData>)
    ensures
        r@.map_values(|m: OptionalCheckInvalidYamlData| m@) == v@.map_values(
            |m: OptionalCheckInvalidYamlData| m@,
        ),
{
    let mut r: Vec<OptionalCheckInvalidYamlData> = Vec::new();
    let mut i: usize = 0;
    while i < v.len()
        invariant
            i <= v.len(),
            r@.len() == i,
            forall|j: int| 0 <= j < i ==> #[trigger] r@[j]@ == v@[j]@,
        decreases v.len() - i,
    {
        r.push(v[i].clone());
        i += 1;
    }
    assert(r@.map_values(|m: OptionalCheckInvalidYamlData| m@) =~= v@.map_values(
        |m: OptionalCheckInvalidYamlData| m@,
    ));
    r
}

/// The problems found in optional data: missing values and values that could not be read.
#[derive(Debug, PartialEq)]
pub struct OptionalCheckResult {
    missing_values: Vec<OptionalCheckMissingData>,
    invalid_yaml_values: Vec<OptionalCheckInvalidYamlData>,
}

impl View for OptionalCheckResult {
    type V = (Seq<PathView>, Seq<InvalidYamlView>);

    closed spec fn view(&self) -> Self::V {
        (
            self.missing_values@.map_values(|m: OptionalCheckMissingData| m@),
            self.invalid_yaml_values@.map_values(|m: OptionalCheckInvalidYamlData| m@),
        )
    }
}

impl Clone for OptionalCheckResult {
    fn clone(&self) -> (r: Self)
        ensures
            r@ == self@,
    {
        OptionalCheckResult {
            missing_values: clone_missing(&self.missing_values),
            invalid_yaml_values: clone_invalid(&self.invalid_yaml_values),
        }
    }
}

impl OptionalCheckResult {
    /// One missing value, named `os` when a name is given.
    pub fn from_missing(os: Option<String>) -> (r: OptionalCheckResult)
        ensures
            r@ == (seq![leaf_path(opt_view(os))], Seq::<InvalidYamlView>::empty()),
    {
        let mut m = Vec::new();
        m.push(OptionalCheckMissingData { path: OptionalCheckPath::with_last(os) });
        let r = OptionalCheckResult { missing_values: m, invalid_yaml_values: Vec::new() };
        assert(r@.0 =~= seq![leaf_path(opt_view(os))]);
        assert(r@.1 =~= Seq::<InvalidYamlView>::empty());
        r
    }

    /// One invalid value, with the yaml of the value when it could be written.
    pub fn from_invalid(data: Option<String>) -> (r: OptionalCheckResult)
        ensures
            r@ == (Seq::<PathView>::empty(), seq![(leaf_path(None), opt_view(data))]),
    {
        let ghost e = (leaf_path(None), opt_view(data));
        let mut v = Vec::new();
        v.push(OptionalCheckInvalidYamlData { path: OptionalCheckPath::without_last(), data });
        let r = OptionalCheckResult { missing_values: Vec::new(), invalid_yaml_values: v };
        assert(r@.0 =~= Seq::<PathView>::empty());
        assert(r@.1 =~= seq![e]);
        r
    }

    /// No problems.
    pub fn empty() -> (r: OptionalCheckResult)
        ensures
            r@ == (Seq::<PathView>::empty(), Seq::<InvalidYamlView>::empty()),
    {
        let r = OptionalCheckResult { missing_values: Vec::new(), invalid_yaml_values: Vec::new() };
        assert(r@.0 =~= Seq::<PathView>::empty());
        assert(r@.1 =~= Seq::<InvalidYamlView>::empty());
        r
    }

    /// Whether no problem was found.
    pub fn is_empty(&self) -> (r: bool)
        ensures
            r == (self@.0.len() == 0 && self@.1.len() == 0),
    {
        self.missing_values.len() == 0 && self.invalid_yaml_values.len() == 0
    }

    /// Puts the field name `s` in front of the path of every problem.
    pub fn extend_path(&mut self, s: String)
        ensures
            final(self)@.0 == old(self)@.0.map_values(|p: PathView| prefix_path(p, s@)),
            final(self)@.1 == old(self)@.1.map_values(
                |e: InvalidYamlView| (prefix_path(e.0, s@), e.1),
            ),
    {
        let mut missing: Vec<OptionalCheckMissingData> = Vec::new();
        let mut i: usize = 0;
        while i < self.missing_values.len()
            invariant
                i <= self.missing_values.len(),
                self.missing_values@ == old(self).missing_values@,
                missing@.len() == i,
                forall|j: int|
                    0 <= j < i ==> #[trigger] missing@[j]@ == prefix_path(
                        self.missing_values@[j]@,
                        s@,
                    ),
            decreases self.missing_values.len() - i,
        {
            missing.push(self.missing_values[i].prefixed(&s));
            i += 1;
        }
        let mut invalid: Vec<OptionalCheckInvalidYamlData> = Vec::new();
        let mut i: usize = 0;
        while i < self.invalid_yaml_values.len()
            invariant
                i <= self.invalid_yaml_values.len(),
                self.invalid_yaml_values@ == old(self).invalid_yaml_values@,
                invalid@.len() == i,
                forall|j: int|
                    0 <= j < i ==> #[trigger] invalid@[j]@ == (
                        prefix_path(self.invalid_yaml_values@[j]@.0, s@),
                        self.invalid_yaml_values@[j]@.1,
                    ),
            decreases self.invalid_yaml_values.len() - i,
        {
            invalid.push(self.invalid_yaml_values[i].prefixed(&s));
            i += 1;
        }
        self.missing_values = missing;
        self.invalid_yaml_values = invalid;
        assert(self@.0 =~= old(self)@.0.map_values(|p: PathView| prefix_path(p, s@)));
        assert(self@.1 =~= old(self)@.1.map_values(
            |e: InvalidYamlView| (prefix_path(e.0, s@), e.1),
        ));
    }

    /// Adds the problems of `other` after those of `self`.
    pub fn union(&mut self, other: &Self)
        ensures
            final(self)@ == (old(self)@.0 + other@.0, old(self)@.1 + other@.1),
    {
        let mut m = clone_missing(&other.missing_values);
        self.missing_values.append(&mut m);
        let mut v = clone_invalid(&other.invalid_yaml_values);
        self.invalid_yaml_values.append(&mut v);
        assert(self@.0 =~= old(self)@.0 + other@.0);
        assert(self@.1 =~= old(self)@.1 + other@.1);
    }

    /// The missing values.
    pub fn missing_fields(&self) -> (r: Vec<OptionalCheckMissingData>)
        ensures
            r@.map_values(|m: OptionalCheckMissingData| m@) == self@.0,
    {
        clone_missing(&self.missing_values)
    }

    /// The invalid values.
    pub fn invalid_yaml_fields(&self) -> (r: Vec<OptionalCheckInvalidYamlData>)
        ensures
            r@.map_values(|m: OptionalCheckInvalidYamlData| m@) == self@.1,
    {
        clone_invalid(&self.invalid_yaml_values)
    }
}

} // verus!
