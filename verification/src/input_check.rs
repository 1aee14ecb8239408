//! The result of checking input data for missing and invalid values.
use crate::text::{join, join_spec};
use vstd::prelude::*;

verus! {

/// The text of a path made of `parts` and an optional last part: the parts joined by dots, then
/// the last part after a dot (or alone when there are no parts).
pub open spec fn path_text(parts: Seq<Seq<char>>, last: Option<Seq<char>>) -> Seq<char> {
    match last {
        Some(e) => if parts.len() == 0 {
            e
        } else {
            join_spec(parts, seq!['.']) + seq!['.'] + e
        },
        None => join_spec(parts, seq!['.']),
    }
}

/// The view of a string option.
pub open spec fn opt_view(o: Option<String>) -> Option<Seq<char>> {
    match o {
        Some(s) => Some(s@),
        None => None,
    }
}

/// Copies an optional string.
pub fn clone_opt(o: &Option<String>) -> (r: Option<String>)
    ensures
        r == *o,
{
    match o {
        Some(s) => Some(s.clone()),
        None => None,
    }
}

/// Copies a list of strings.
pub fn clone_strings(v: &Vec<String>) -> (r: Vec<String>)
    ensures
        r@ == v@,
{
    let mut r: Vec<String> = Vec::new();
    let mut i: usize = 0;
    while i < v.len()
        invariant
            i <= v.len(),
            r@ == v@.take(i as int),
        decreases v.len() - i,
    {
        r.push(v[i].clone());
        assert(v@.take(i as int).push(v@[i as int]) =~= v@.take(i + 1));
        i += 1;
    }
    assert(v@.take(v.len() as int) =~= v@);
    r
}

/// A path: the names of the enclosing fields, outermost first, and optionally a last name.
pub type PathView = (Seq<Seq<char>>, Option<Seq<char>>);

/// The path with `s` put in front of its parts.
pub open spec fn prefix_path(p: PathView, s: Seq<char>) -> PathView {
    (seq![s] + p.0, p.1)
}

/// The empty path with the given last part.
pub open spec fn leaf_path(last: Option<Seq<char>>) -> PathView {
    (Seq::empty(), last)
}

/// Where in the input a problem was found: the names of the enclosing fields (outermost first)
/// and, optionally, the name of the field itself.
#[derive(Debug, PartialEq)]
pub struct InputCheckPath {
    parts: Vec<String>,
    last_part: Option<String>,
}

impl View for InputCheckPath {
    type V = PathView;

    closed spec fn view(&self) -> PathView {
        (self.parts@.map_values(|p: String| p@), opt_view(self.last_part))
    }
}

impl Clone for InputCheckPath {
    fn clone(&self) -> (r: Self)
        ensures
            r@ == self@,
    {
        let r = InputCheckPath {
            parts: clone_strings(&self.parts),
            last_part: clone_opt(&self.last_part),
        };
        assert(r@.0 =~= self@.0);
        r
    }
}

impl InputCheckPath {
    /// A path with no enclosing fields and the given last part.
    pub fn with_last(os: Option<String>) -> (r: Self)
        ensures
            r@ == leaf_path(opt_view(os)),
    {
        let r = InputCheckPath { parts: Vec::new(), last_part: os };
        assert(r@.0 =~= Seq::<Seq<char>>::empty());
        r
    }

    /// The empty path.
    pub fn without_last() -> (r: Self)
        ensures
            r@ == leaf_path(None),
    {
        Self::with_last(None)
    }

    /// Puts an enclosing field name in front of the path.
    pub fn add(&mut self, s: String)
        ensures
            final(self)@ == prefix_path(old(self)@, s@),
    {
        let ghost sv = s@;
        self.parts.insert(0, s);
        assert(self@.0 =~= seq![sv] + old(self)@.0);
    }

    /// The path as text: parts joined by dots, followed by the last part.
    pub fn to_string(&self) -> (r: String)
        ensures
            r@ == path_text(self@.0, self@.1),
    {
        let base = join(&self.parts, ".");
        proof {
            reveal_strlit(".");
            assert("."@ =~= seq!['.']);
            assert(self.parts@.map_values(|p: String| p@).len() == self.parts@.len());
        }
        match &self.last_part {
            Some(e) => {
                if self.parts.len() == 0 {
                    e.clone()
                } else {
                    let mut r = base;
                    r.append(".");
                    r.append(e.as_str());
                    assert(r@ =~= join_spec(self@.0, seq!['.']) + seq!['.'] + e@);
                    r
                }
            },
            None => base,
        }
    }
}

/// A value that is missing from the input.
#[derive(Debug, PartialEq)]
pub struct InputCheckMissingData {
    path: InputCheckPath,
}

impl View for InputCheckMissingData {
    type V = PathView;

    closed spec fn view(&self) -> PathView {
        self.path@
    }
}

impl Clone for InputCheckMissingData {
    fn clone(&self) -> (r: Self)
        ensures
            r@ == self@,
    {
        InputCheckMissingData { path: self.path.clone() }
    }
}

impl InputCheckMissingData {
    /// The same value with an enclosing field name in front of its path.
    fn prefixed(&self, s: &String) -> (r: Self)
        ensures
            r@ == prefix_path(self@, s@),
    {
        let mut p = self.path.clone();
        p.add(s.clone());
        InputCheckMissingData { path: p }
    }

    /// The path as text.
    pub fn to_string(&self) -> (r: String)
        ensures
            r@ == path_text(self@.0, self@.1),
    {
        self.path.to_string()
    }
}

/// An invalid value: its path, the yaml of the value when it could be written, and the message
/// of the error that reading it gave, if any.
pub type InvalidView = (PathView, Option<Seq<char>>, Option<Seq<char>>);

/// A value in the input that could not be read.
#[derive(Debug, PartialEq)]
pub struct InputCheckInvalidYamlData {
    path: InputCheckPath,
    data: Option<String>,
    error: Option<String>,
}

impl View for InputCheckInvalidYamlData {
    type V = InvalidView;

    closed spec fn view(&self) -> InvalidView {
        (self.path@, opt_view(self.data), opt_view(self.error))
    }
}

impl Clone for InputCheckInvalidYamlData {
    fn clone(&self) -> (r: Self)
        ensures
            r@ == self@,
    {
        InputCheckInvalidYamlData {
            path: self.path.clone(),
            data: clone_opt(&self.data),
            error: clone_opt(&self.error),
        }
    }
}

/// The text that describes an invalid value: the path, then the yaml of the value when it could be
/// written, then the error message when there is one.
pub open spec fn invalid_text(path: Seq<char>, data: Option<Seq<char>>, error: Option<Seq<char>>) -> Seq<char> {
    (match data {
        Some(d) => path + "\n With yaml:\n"@ + d,
        None => path,
    }) + (match error {
        Some(e) => "With error: "@ + e,
        None => Seq::empty(),
    })
}

impl InputCheckInvalidYamlData {
    /// The same value with an enclosing field name in front of its path.
    fn prefixed(&self, s: &String) -> (r: Self)
        ensures
            r@ == (prefix_path(self@.0, s@), self@.1, self@.2),
    {
        let mut p = self.path.clone();
        p.add(s.clone());
        InputCheckInvalidYamlData {
            path: p,
            data: clone_opt(&self.data),
            error: clone_opt(&self.error),
        }
    }

    /// The description of the invalid value.
    pub fn to_string(&self) -> (r: String)
        ensures
            r@ == invalid_text(path_text(self@.0.0, self@.0.1), self@.1, self@.2),
    {
        let mut r = self.path.to_string();
        let ghost p = r@;
        if let Some(d) = &self.data {
            r.append("\n With yaml:\n");
            r.append(d.as_str());
        }
        let ghost q = r@;
        if let Some(e) = &self.error {
            r.append("With error: ");
            r.append(e.as_str());
        }
        proof {
            let data = self@.1;
            let error = self@.2;
            assert(q == match data {
                Some(d) => p + "\n With yaml:\n"@ + d,
                None => p,
            });
            match error {
                Some(e) => {
                    assert(r@ =~= q + ("With error: "@ + e));
                },
                None => {
                    assert(r@ =~= q + Seq::<char>::empty());
                },
            }
        }
        r
    }
}

/// Copies a list of missing values.
fn clone_missing(v: &Vec<InputCheckMissingData>) -> (r: Vec<InputCheckMissingData>)
    ensures
        r@.map_values(|m: InputCheckMissingData| m@) == v@.map_values(|m: InputCheckMissingData| m@),
{
    let mut r: Vec<InputCheckMissingData> = Vec::new();
    let mut i: usize = 0;
    while i < v.len()
        invariant
            i <= v.len(),
            r@.len() == i,
            forall|j: int| 0 <= j < i ==> #[trigger] r@[j]@ == v@[j]@,
        decreases v.len() - i,
    {
        r.push(v[i].clone());
        i += 1;
    }
    assert(r@.map_values(|m: InputCheckMissingData| m@) =~= v@.map_values(
        |m: InputCheckMissingData| m@,
    ));
    r
}

/// Copies a list of invalid values.
fn clone_invalid(v: &Vec<InputCheckInvalidYamlData>) -> (r: Vec<InputCheckInvalidYamlData>)
    ensures
        r@.map_values(|m: InputCheckInvalidYamlData| m@) == v@.map_values(
            |m: InputCheckInvalidYamlData| m@,
        ),
{
    let mut r: Vec<InputCheckInvalidYamlData> = Vec::new();
    let mut i: usize = 0;
    while i < v.len()
        invariant
            i <= v.len(),
            r@.len() == i,
            forall|j: int| 0 <= j < i ==> #[trigger] r@[j]@ == v@[j]@,
        decreases v.len() - i,
    {
        r.push(v[i].clone());
        i += 1;
    }
    assert(r@.map_values(|m: InputCheckInvalidYamlData| m@) =~= v@.map_values(
        |m: InputCheckInvalidYamlData| m@,
    ));
    r
}

/// The problems found in input data: missing values and values that could not be read.
#[derive(Debug, PartialEq)]
pub struct InputCheckResult {
    missing_values: Vec<InputCheckMissingData>,
    invalid_yaml_values: Vec<InputCheckInvalidYamlData>,
}

impl View for InputCheckResult {
    type V = (Seq<PathView>, Seq<InvalidView>);

    closed spec fn view(&self) -> Self::V {
        (
            self.missing_values@.map_values(|m: InputCheckMissingData| m@),
            self.invalid_yaml_values@.map_values(|m: InputCheckInvalidYamlData| m@),
        )
    }
}

impl Clone for InputCheckResult {
    fn clone(&self) -> (r: Self)
        ensures
            r@ == self@,
    {
        InputCheckResult {
            missing_values: clone_missing(&self.missing_values),
            invalid_yaml_values: clone_invalid(&self.invalid_yaml_values),
        }
    }
}

impl InputCheckResult {
    /// One missing value, named `os` when a name is given.
    pub fn from_missing(os: Option<String>) -> (r: InputCheckResult)
        ensures
            r@ == (seq![leaf_path(opt_view(os))], Seq::<InvalidView>::empty()),
    {
        let mut m = Vec::new();
        m.push(InputCheckMissingData { path: InputCheckPath::with_last(os) });
        let r = InputCheckResult { missing_values: m, invalid_yaml_values: Vec::new() };
        assert(r@.0 =~= seq![leaf_path(opt_view(os))]);
        assert(r@.1 =~= Seq::<InvalidView>::empty());
        r
    }

    /// One invalid value, with the yaml of the value (when it could be written) and the message
    /// of the error that reading it gave (if any).
    pub fn from_invalid(data: Option<String>, error: Option<String>) -> (r: InputCheckResult)
        ensures
            r@ == (Seq::<PathView>::empty(), seq![
                (leaf_path(None), opt_view(data), opt_view(error)),
            ]),
    {
        let ghost e = (leaf_path(None), opt_view(data), opt_view(error));
        let mut v = Vec::new();
        v.push(InputCheckInvalidYamlData { path: InputCheckPath::without_last(), data, error });
        let r = InputCheckResult { missing_values: Vec::new(), invalid_yaml_values: v };
        assert(r@.0 =~= Seq::<PathView>::empty());
        assert(r@.1 =~= seq![e]);
        r
    }

    /// No problems.
    pub fn empty() -> (r: InputCheckResult)
        ensures
            r@ == (Seq::<PathView>::empty(), Seq::<InvalidView>::empty()),
    {
        let r = InputCheckResult { missing_values: Vec::new(), invalid_yaml_values: Vec::new() };
        assert(r@.0 =~= Seq::<PathView>::empty());
        assert(r@.1 =~= Seq::<InvalidView>::empty());
        r
    }

    /// Whether no problem was found.
    pub fn is_empty(&self) -> (r: bool)
        ensures
            r == (self@.0.len() == 0 && self@.1.len() == 0),
    {
        self.missing_values.len() == 0 && self.invalid_yaml_values.len() == 0
    }

    /// Puts the field name `s` in front of the path of every problem.
    pub fn extend_path(&mut self, s: String)
        ensures
            final(self)@.0 == old(self)@.0.map_values(|p: PathView| prefix_path(p, s@)),
            final(self)@.1 == old(self)@.1.map_values(
                |e: InvalidView| (prefix_path(e.0, s@), e.1, e.2),
            ),
    {
        let mut missing: Vec<InputCheckMissingData> = Vec::new();
        let mut i: usize = 0;
        while i < self.missing_values.len()
            invariant
                i <= self.missing_values.len(),
                self.missing_values@ == old(self).missing_values@,
                missing@.len() == i,
                forall|j: int|
                    0 <= j < i ==> #[trigger] missing@[j]@ == prefix_path(
                        self.missing_values@[j]@,
                        s@,
                    ),
            decreases self.missing_values.len() - i,
        {
            missing.push(self.missing_values[i].prefixed(&s));
            i += 1;
        }
        let mut invalid: Vec<InputCheckInvalidYamlData> = Vec::new();
        let mut i: usize = 0;
        while i < self.invalid_yaml_values.len()
            invariant
                i <= self.invalid_yaml_values.len(),
                self.invalid_yaml_values@ == old(self).invalid_yaml_values@,
                invalid@.len() == i,
                forall|j: int|
                    0 <= j < i ==> #[trigger] invalid@[j]@ == (
                        prefix_path(self.invalid_yaml_values@[j]@.0, s@),
                        self.invalid_yaml_values@[j]@.1,
                        self.invalid_yaml_values@[j]@.2,
                    ),
            decreases self.invalid_yaml_values.len() - i,
        {
            invalid.push(self.invalid_yaml_values[i].prefixed(&s));
            i += 1;
        }
        self.missing_values = missing;
        self.invalid_yaml_values = invalid;
        assert(self@.0 =~= old(self)@.0.map_values(|p: PathView| prefix_path(p, s@)));
        assert(self@.1 =~= old(self)@.1.map_values(
            |e: InvalidView| (prefix_path(e.0, s@), e.1, e.2),
        ));
    }

    /// Adds the problems of `other` after those of `self`.
    pub fn union(&mut self, other: &Self)
        ensures
            final(self)@ == (old(self)@.0 + other@.0, old(self)@.1 + other@.1),
    {
        let mut m = clone_missing(&other.missing_values);
        self.missing_values.append(&mut m);
        let mut v = clone_invalid(&other.invalid_yaml_values);
        self.invalid_yaml_values.append(&mut v);
        assert(self@.0 =~= old(self)@.0 + other@.0);
        assert(self@.1 =~= old(self)@.1 + other@.1);
    }

    /// The missing values.
    pub fn missing_fields(&self) -> (r: Vec<InputCheckMissingData>)
        ensures
            r@.map_values(|m: InputCheckMissingData| m@) == self@.0,
    {
        clone_missing(&self.missing_values)
    }

    /// The invalid values.
    pub fn invalid_yaml_fields(&self) -> (r: Vec<InputCheckInvalidYamlData>)
        ensures
            r@.map_values(|m: InputCheckInvalidYamlData| m@) == self@.1,
    {
        clone_invalid(&self.invalid_yaml_values)
    }
}

} // verus!
