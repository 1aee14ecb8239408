//! Values of input data: given, left to a template, or invalid.
use crate::input_check::clone_opt;
use crate::text::{chars_of, matches_at, string_of};
use vstd::prelude::*;

verus! {

/// The prefix of a template reference, `template:<key>`.
pub const TEMPLATE_PREFIX: &'static str = "template";

/// The position of the first occurrence of `pat` in `s` (for a non-empty `pat`).
pub open spec fn first_occurrence(s: Seq<char>, pat: Seq<char>) -> Option<int>
    decreases s.len(),
{
    if pat.len() == 0 || s.len() < pat.len() {
        None
    } else if s.subrange(0, pat.len() as int) == pat {
        Some(0)
    } else {
        match first_occurrence(s.drop_first(), pat) {
            Some(i) => Some(i + 1),
            None => None,
        }
    }
}

/// The text after the prefix `pat` of `s`, up to the next occurrence of `pat`: the second piece
/// that `str::split` gives when `s` starts with `pat`.
pub open spec fn second_piece(s: Seq<char>, pat: Seq<char>) -> Seq<char> {
    let rest = s.subrange(pat.len() as int, s.len() as int);
    match first_occurrence(rest, pat) {
        Some(i) => rest.take(i),
        None => rest,
    }
}

/// Facts about `first_occurrence`.
proof fn lemma_first_occurrence(s: Seq<char>, pat: Seq<char>, i: int)
    requires
        pat.len() > 0,
        0 <= i <= s.len() - pat.len(),
        forall|j: int| 0 <= j < i ==> #[trigger] s.subrange(j, j + pat.len()) != pat,
    ensures
        s.subrange(i, i + pat.len()) == pat ==> first_occurrence(s, pat) == Some(i),
    decreases i,
{
    if i > 0 {
        let t = s.drop_first();
        assert forall|j: int| 0 <= j < i - 1 implies #[trigger] t.subrange(j, j + pat.len())
            != pat by {
            assert(t.subrange(j, j + pat.len()) =~= s.subrange(j + 1, j + 1 + pat.len()));
        }
        assert(s.subrange(0, pat.len() as int) =~= s.subrange(0int, 0int + pat.len()));
        assert(t.subrange(i - 1, i - 1 + pat.len()) =~= s.subrange(i, i + pat.len()));
        lemma_first_occurrence(t, pat, i - 1);
    }
}

/// `first_occurrence` is `None` when no position matches.
proof fn lemma_no_occurrence(s: Seq<char>, pat: Seq<char>)
    requires
        pat.len() > 0,
        forall|j: int|
            0 <= j <= s.len() - pat.len() ==> #[trigger] s.subrange(j, j + pat.len()) != pat,
    ensures
        first_occurrence(s, pat) is None,
    decreases s.len(),
{
    if s.len() >= pat.len() {
        let t = s.drop_first();
        assert(s.subrange(0, pat.len() as int) =~= s.subrange(0int, 0int + pat.len()));
        assert forall|j: int| 0 <= j <= t.len() - pat.len() implies #[trigger] t.subrange(
            j,
            j + pat.len(),
        ) != pat by {
            assert(t.subrange(j, j + pat.len()) =~= s.subrange(j + 1, j + 1 + pat.len()));
        }
        lemma_no_occurrence(t, pat);
    }
}

/// The characters of `s` after the prefix `pat`, up to the next occurrence of `pat`.
pub fn second_piece_of(s: &Vec<char>, pat: &Vec<char>) -> (r: Vec<char>)
    requires
        pat.len() > 0,
        pat.len() <= s.len(),
    ensures
        r@ == second_piece(s@, pat@),
{
    let ghost rest = s@.subrange(pat.len() as int, s.len() as int);
    let mut r: Vec<char> = Vec::new();
    let mut i: usize = pat.len();
    while i < s.len()
        invariant
            pat.len() <= i <= s.len(),
            pat@.len() > 0,
            rest == s@.subrange(pat.len() as int, s.len() as int),
            r@ == rest.take(i - pat.len()),
            forall|j: int|
                0 <= j < i - pat.len() && j <= rest.len() - pat.len() ==> #[trigger] rest.subrange(
                    j,
                    j + pat.len(),
                ) != pat@,
        decreases s.len() - i,
    {
        if pat.len() <= s.len() - i && matches_at(s, i, pat) {
            proof {
                let k = i - pat.len();
                assert(rest.subrange(k, k + pat.len()) =~= s@.subrange(i as int, i + pat.len()));
                lemma_first_occurrence(rest, pat@, k);
            }
            return r;
        }
        proof {
            let k = i - pat.len();
            if k <= rest.len() - pat.len() {
                assert(rest.subrange(k, k + pat.len()) =~= s@.subrange(i as int, i + pat.len()));
            }
        }
        r.push(s[i]);
        assert(rest.take(i - pat.len()).push(rest[i - pat.len()]) =~= rest.take(
            i + 1 - pat.len(),
        ));
        i += 1;
    }
    proof {
        lemma_no_occurrence(rest, pat@);
        assert(rest.take(rest.len() as int) =~= rest);
    }
    r
}

/// A reference to a template value: `template:<key>` in the yaml.
#[derive(Debug, PartialEq)]
pub struct TemplateString {
    /// The key of the template value
    pub key: Option<String>,
    /// Why the reference is invalid, if it is
    pub error_message: Option<String>,
}

impl Clone for TemplateString {
    fn clone(&self) -> (r: Self)
        ensures
            r == *self,
    {
        TemplateString { key: clone_opt(&self.key), error_message: clone_opt(&self.error_message) }
    }
}

/// The outcome of reading `s` as a template reference: the key after `template:` (up to a second
/// `template:`), an error for a bare `template:`, and `None` for text without the prefix.
pub open spec fn template_of(s: Seq<char>) -> Option<(Seq<char>, Option<Seq<char>>)> {
    let prefix = "template:"@;
    if prefix.is_prefix_of(s) {
        if s == prefix {
            Some((Seq::empty(), Some("Missing template key"@)))
        } else {
            Some((second_piece(s, prefix), None))
        }
    } else {
        None
    }
}

impl TemplateString {
    /// Reads a template reference: `template:<key>` gives the key; a bare `template:` gives an
    /// empty key and an error message; any other text is refused with a message.
    pub fn from_text(s: &str) -> (r: Result<TemplateString, String>)
        ensures
            match template_of(s@) {
                Some((k, e)) => r matches Ok(t) && crate::input_check::opt_view(t.key) == Some(k) && crate::input_check::opt_view(
                    t.error_message,
                ) == e,
                None => r matches Err(m) && m@ == "String does not start with template:"@,
            },
    {
        let sv = chars_of(s);
        let prefix = chars_of("template:");
        proof {
            reveal_strlit("template:");
            reveal_strlit("Missing template key");
        }
        if prefix.len() <= sv.len() && matches_at(&sv, 0, &prefix) {
            assert("template:"@.is_prefix_of(s@));
            if sv.len() == prefix.len() {
                assert(s@ =~= "template:"@);
                let key = string_of(&Vec::new());
                Ok(TemplateString {
                    key: Some(key),
                    error_message: Some(crate::text::owned("Missing template key")),
                })
            } else {
                assert(s@ != "template:"@);
                let piece = second_piece_of(&sv, &prefix);
                Ok(TemplateString { key: Some(string_of(&piece)), error_message: None })
            }
        } else {
            proof {
                if "template:"@.is_prefix_of(s@) {
                    assert(sv@.subrange(0, prefix@.len() as int) =~= prefix@);
                }
            }
            Err(crate::text::owned("String does not start with template:"))
        }
    }

    /// The yaml text of the reference, `template:<key>`.
    pub fn yaml(&self) -> (r: String)
        requires
            self.key is Some,
        ensures
            r@ == "template:"@ + self.key->0@,
    {
        let mut r = crate::text::owned("template:");
        match &self.key {
            Some(k) => r.append(k.as_str()),
            None => {},
        }
        r
    }
}

/// A value in the yaml that could not be read as the expected type: its yaml text and the error
/// that reading it gave.
#[derive(Debug, PartialEq)]
pub struct InvalidYaml {
    pub yaml: String,
    pub error: Option<String>,
}

impl Clone for InvalidYaml {
    fn clone(&self) -> (r: Self)
        ensures
            r == *self,
    {
        InvalidYaml { yaml: self.yaml.clone(), error: clone_opt(&self.error) }
    }
}

/// A value of input data.
#[derive(Debug, PartialEq)]
pub enum ValueType<T> {
    /// A reference to a template value that still has to be filled in
    Template(TemplateString),
    /// A given value
    Normal(T),
    /// A value that could not be read
    Invalid(InvalidYaml),
}

impl<T: Clone> Clone for ValueType<T> {
    fn clone(&self) -> (r: Self)
        ensures
            match (*self, r) {
                (ValueType::Template(a), ValueType::Template(b)) => a == b,
                (ValueType::Normal(a), ValueType::Normal(b)) => cloned(a, b),
                (ValueType::Invalid(a), ValueType::Invalid(b)) => a == b,
                _ => false,
            },
    {
        match self {
            ValueType::Template(t) => ValueType::Template(t.clone()),
            ValueType::Normal(v) => ValueType::Normal(v.clone()),
            ValueType::Invalid(s) => ValueType::Invalid(s.clone()),
        }
    }
}

impl<T: Clone> ValueType<T> {
    /// The given value; only for a given value.
    pub fn unwrap(&self) -> (r: T)
        requires
            self is Normal,
        ensures
            cloned(self->Normal_0, r),
    {
        match self {
            ValueType::Normal(val) => val.clone(),
            _ => {
                vstd::pervasive::unreached()
            },
        }
    }

    /// Applies `f` to the given value; only for a given value.
    pub fn map<U, F: FnOnce(T) -> U>(self, f: F) -> (r: Option<U>)
        requires
            self is Normal,
            f.requires((self->Normal_0,)),
        ensures
            r matches Some(u) && f.ensures((self->Normal_0,), u),
    {
        match self {
            ValueType::Normal(val) => Some(f(val)),
            _ => {
                proof {
                    assert(false);
                }
                None
            },
        }
    }

    /// Applies `f` to a given value and keeps template references and invalid values.
    pub fn real_map<U, F: FnOnce(T) -> U>(self, f: F) -> (r: ValueType<U>)
        requires
            self matches ValueType::Normal(v) ==> f.requires((v,)),
        ensures
            match self {
                ValueType::Normal(v) => r matches ValueType::Normal(u) && f.ensures((v,), u),
                ValueType::Template(ts) => r == ValueType::<U>::Template(ts),
                ValueType::Invalid(s) => r == ValueType::<U>::Invalid(s),
            },
    {
        match self {
            ValueType::Normal(val) => ValueType::Normal(f(val)),
            ValueType::Template(ts) => ValueType::Template(ts),
            ValueType::Invalid(v) => ValueType::Invalid(v),
        }
    }
}

/// A possibly absent value of input data.
#[derive(Debug, PartialEq)]
pub struct Value<T>(pub Option<ValueType<T>>);

impl<T: Clone> Clone for Value<T> {
    fn clone(&self) -> (r: Self)
        ensures
            match (self.0, r.0) {
                (None, None) => true,
                (Some(ValueType::Template(a)), Some(ValueType::Template(b))) => a == b,
                (Some(ValueType::Normal(a)), Some(ValueType::Normal(b))) => cloned(a, b),
                (Some(ValueType::Invalid(a)), Some(ValueType::Invalid(b))) => a == b,
                _ => false,
            },
    {
        match &self.0 {
            Some(v) => Value(Some(v.clone())),
            None => Value(None),
        }
    }
}

impl<T> Value<T> {
    /// Whether a value (given, template or invalid) is present.
    pub fn is_some(&self) -> (r: bool)
        ensures
            r == (self.0 is Some),
    {
        self.0.is_some()
    }

    /// Whether no value is present.
    pub fn is_none(&self) -> (r: bool)
        ensures
            r == (self.0 is None),
    {
        self.0.is_none()
    }

    /// A given value.
    #[allow(non_snake_case)]
    pub fn Normal(val: T) -> (r: Value<T>)
        ensures
            r == Value(Some(ValueType::Normal(val))),
    {
        Value(Some(ValueType::Normal(val)))
    }

    /// A template reference.
    #[allow(non_snake_case)]
    pub fn Template(ts: TemplateString) -> (r: Value<T>)
        ensures
            r == Value::<T>(Some(ValueType::Template(ts))),
    {
        Value(Some(ValueType::Template(ts)))
    }

    /// No value (`Value::None` in yaml terms; the name `None` is reserved here).
    pub fn none() -> (r: Value<T>)
        ensures
            r == Value::<T>(None),
    {
        Value(None)
    }
}

impl<T: Clone> Value<T> {
    /// The given value, or `default` when no value is present. A template reference or an invalid
    /// value is not accepted.
    pub fn unwrap_or(&self, default: T) -> (r: T)
        requires
            self.0 matches Some(v) ==> v is Normal,
        ensures
            match self.0 {
                Some(ValueType::Normal(v)) => cloned(v, r),
                _ => r == default,
            },
    {
        match &self.0 {
            Some(v) => v.unwrap(),
            None => default,
        }
    }

    /// The given value; only for a given value.
    pub fn unwrap(&self) -> (r: T)
        requires
            self.0 matches Some(v) && v is Normal,
        ensures
            cloned(self.0->Some_0->Normal_0, r),
    {
        match &self.0 {
            Some(v) => v.unwrap(),
            None => {
                vstd::pervasive::unreached()
            },
        }
    }

    /// Applies `f` to the given value; only for a given value.
    pub fn map<U, F: FnOnce(T) -> U>(self, f: F) -> (r: Option<U>)
        requires
            self.0 matches Some(v) && v is Normal,
            f.requires((self.0->Some_0->Normal_0,)),
        ensures
            r matches Some(u) && f.ensures((self.0->Some_0->Normal_0,), u),
    {
        match self.0 {
            Some(v) => v.map(f),
            None => {
                proof {
                    assert(false);
                }
                None
            },
        }
    }

    /// Applies `f` to a given value and keeps everything else.
    pub fn real_map<U, F: FnOnce(T) -> U>(self, f: F) -> (r: Value<U>)
        requires
            self.0 matches Some(ValueType::Normal(v)) ==> f.requires((v,)),
        ensures
            match self.0 {
                Some(ValueType::Normal(v)) => r.0 matches Some(ValueType::Normal(u)) && f.ensures(
                    (v,),
                    u,
                ),
                Some(ValueType::Template(ts)) => r == Value::<U>(Some(ValueType::Template(ts))),
                Some(ValueType::Invalid(s)) => r == Value::<U>(Some(ValueType::Invalid(s))),
                None => r == Value::<U>(None),
            },
    {
        match self.0 {
            Some(v) => Value(Some(v.real_map(f))),
            None => Value(None),
        }
    }
}

impl<T> Default for Value<T> {
    fn default() -> (r: Self)
        ensures
            r == Value::<T>(None),
    {
        Value(None)
    }
}

} // verus!
