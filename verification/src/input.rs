//! Input data as read from the yaml: values that may still be missing, templates or invalid, and
//! the check that finds them before the data is turned into its complete form.
use crate::input_check::{
    leaf_path, opt_view, prefix_path, InputCheckResult, InvalidView, PathView,
};
use crate::jme::{JMEString, VariableValued};
use crate::noneable::Noneable;
use crate::string_map::StringMap;
use crate::value::{TemplateString, Value, ValueType};
use vstd::prelude::*;

verus! {

/// The problems found in input data: the paths of missing values, and the invalid values.
pub type CheckView = (Seq<PathView>, Seq<InvalidView>);

/// No problems.
pub open spec fn no_problems() -> CheckView {
    (Seq::empty(), Seq::empty())
}

/// Whether nothing was found.
pub open spec fn is_clean(c: CheckView) -> bool {
    c.0.len() == 0 && c.1.len() == 0
}

/// The problems of a field, with the field's name put in front of their paths.
pub open spec fn under(c: CheckView, name: Seq<char>) -> CheckView {
    (
        c.0.map_values(|p: PathView| prefix_path(p, name)),
        c.1.map_values(|e: InvalidView| (prefix_path(e.0, name), e.1, e.2)),
    )
}

/// The problems of two parts, those of the first part first.
pub open spec fn both(a: CheckView, b: CheckView) -> CheckView {
    (a.0 + b.0, a.1 + b.1)
}

/// Input data that can be checked for missing values and turned into its complete form.
pub trait Input: Sized {
    /// The complete form of the data.
    type Normal;

    /// What `find_missing` reports.
    spec fn missing(&self) -> CheckView;

    /// Whether `n` is the complete form of this input.
    spec fn normal_is(&self, n: Self::Normal) -> bool;

    /// Whether `i` is the input that `from_normal` makes of `n`.
    spec fn input_of(n: Self::Normal, i: Self) -> bool;

    /// Whether a complete value carries no error of its own (such as a template reference without
    /// a key).
    open spec fn normal_valid(n: Self::Normal) -> bool {
        true
    }

    /// The input made of a complete value without errors has no problems and has that value as
    /// its complete form.
    proof fn lemma_input_of_normal(n: Self::Normal, i: Self)
        requires
            Self::normal_valid(n),
            Self::input_of(n, i),
        ensures
            is_clean(i.missing()),
            i.normal_is(n),
    ;

    /// The complete form; only for input without problems.
    fn to_normal(&self) -> (r: Self::Normal)
        requires
            is_clean(self.missing()),
        ensures
            self.normal_is(r),
    ;

    /// The input that stands for a complete value.
    fn from_normal(normal: Self::Normal) -> (r: Self)
        ensures
            Self::input_of(normal, r),
    ;

    /// The missing and invalid values, with their paths.
    fn find_missing(&self) -> (r: InputCheckResult)
        ensures
            r@ == self.missing(),
    ;

    /// The complete form when nothing is missing or invalid, else what is.
    fn to_normal_safe(&self) -> (r: Result<Self::Normal, InputCheckResult>)
        ensures
            match r {
                Ok(n) => is_clean(self.missing()) && self.normal_is(n),
                Err(c) => !is_clean(self.missing()) && c@ == self.missing(),
            },
    {
        let check = self.find_missing();
        if check.is_empty() {
            Ok(self.to_normal())
        } else {
            Err(check)
        }
    }
}

impl Input for String {
    type Normal = String;

    open spec fn missing(&self) -> CheckView {
        no_problems()
    }

    open spec fn normal_is(&self, n: String) -> bool {
        n == *self
    }

    open spec fn input_of(n: String, i: String) -> bool {
        i == n
    }

    proof fn lemma_input_of_normal(n: String, i: String) {
    }

    fn to_normal(&self) -> (r: String) {
        self.clone()
    }

    fn from_normal(normal: String) -> (r: String) {
        normal
    }

    fn find_missing(&self) -> (r: InputCheckResult) {
        let r = InputCheckResult::empty();
        assert(r@ =~= no_problems());
        r
    }
}

impl Input for bool {
    type Normal = bool;

    open spec fn missing(&self) -> CheckView {
        no_problems()
    }

    open spec fn normal_is(&self, n: bool) -> bool {
        n == *self
    }

    open spec fn input_of(n: bool, i: bool) -> bool {
        i == n
    }

    proof fn lemma_input_of_normal(n: bool, i: bool) {
    }

    fn to_normal(&self) -> (r: bool) {
        *self
    }

    fn from_normal(normal: bool) -> (r: bool) {
        normal
    }

    fn find_missing(&self) -> (r: InputCheckResult) {
        let r = InputCheckResult::empty();
        assert(r@ =~= no_problems());
        r
    }
}

impl Input for u8 {
    type Normal = u8;

    open spec fn missing(&self) -> CheckView {
        no_problems()
    }

    open spec fn normal_is(&self, n: u8) -> bool {
        n == *self
    }

    open spec fn input_of(n: u8, i: u8) -> bool {
        i == n
    }

    proof fn lemma_input_of_normal(n: u8, i: u8) {
    }

    fn to_normal(&self) -> (r: u8) {
        *self
    }

    fn from_normal(normal: u8) -> (r: u8) {
        normal
    }

    fn find_missing(&self) -> (r: InputCheckResult) {
        let r = InputCheckResult::empty();
        assert(r@ =~= no_problems());
        r
    }
}

impl Input for u16 {
    type Normal = u16;

    open spec fn missing(&self) -> CheckView {
        no_problems()
    }

    open spec fn normal_is(&self, n: u16) -> bool {
        n == *self
    }

    open spec fn input_of(n: u16, i: u16) -> bool {
        i == n
    }

    proof fn lemma_input_of_normal(n: u16, i: u16) {
    }

    fn to_normal(&self) -> (r: u16) {
        *self
    }

    fn from_normal(normal: u16) -> (r: u16) {
        normal
    }

    fn find_missing(&self) -> (r: InputCheckResult) {
        let r = InputCheckResult::empty();
        assert(r@ =~= no_problems());
        r
    }
}

impl Input for u32 {
    type Normal = u32;

    open spec fn missing(&self) -> CheckView {
        no_problems()
    }

    open spec fn normal_is(&self, n: u32) -> bool {
        n == *self
    }

    open spec fn input_of(n: u32, i: u32) -> bool {
        i == n
    }

    proof fn lemma_input_of_normal(n: u32, i: u32) {
    }

    fn to_normal(&self) -> (r: u32) {
        *self
    }

    fn from_normal(normal: u32) -> (r: u32) {
        normal
    }

    fn find_missing(&self) -> (r: InputCheckResult) {
        let r = InputCheckResult::empty();
        assert(r@ =~= no_problems());
        r
    }
}

impl Input for u64 {
    type Normal = u64;

    open spec fn missing(&self) -> CheckView {
        no_problems()
    }

    open spec fn normal_is(&self, n: u64) -> bool {
        n == *self
    }

    open spec fn input_of(n: u64, i: u64) -> bool {
        i == n
    }

    proof fn lemma_input_of_normal(n: u64, i: u64) {
    }

    fn to_normal(&self) -> (r: u64) {
        *self
    }

    fn from_normal(normal: u64) -> (r: u64) {
        normal
    }

    fn find_missing(&self) -> (r: InputCheckResult) {
        let r = InputCheckResult::empty();
        assert(r@ =~= no_problems());
        r
    }
}

impl Input for u128 {
    type Normal = u128;

    open spec fn missing(&self) -> CheckView {
        no_problems()
    }

    open spec fn normal_is(&self, n: u128) -> bool {
        n == *self
    }

    open spec fn input_of(n: u128, i: u128) -> bool {
        i == n
    }

    proof fn lemma_input_of_normal(n: u128, i: u128) {
    }

    fn to_normal(&self) -> (r: u128) {
        *self
    }

    fn from_normal(normal: u128) -> (r: u128) {
        normal
    }

    fn find_missing(&self) -> (r: InputCheckResult) {
        let r = InputCheckResult::empty();
        assert(r@ =~= no_problems());
        r
    }
}

impl Input for usize {
    type Normal = usize;

    open spec fn missing(&self) -> CheckView {
        no_problems()
    }

    open spec fn normal_is(&self, n: usize) -> bool {
        n == *self
    }

    open spec fn input_of(n: usize, i: usize) -> bool {
        i == n
    }

    proof fn lemma_input_of_normal(n: usize, i: usize) {
    }

    fn to_normal(&self) -> (r: usize) {
        *self
    }

    fn from_normal(normal: usize) -> (r: usize) {
        normal
    }

    fn find_missing(&self) -> (r: InputCheckResult) {
        let r = InputCheckResult::empty();
        assert(r@ =~= no_problems());
        r
    }
}

impl Input for i8 {
    type Normal = i8;

    open spec fn missing(&self) -> CheckView {
        no_problems()
    }

    open spec fn normal_is(&self, n: i8) -> bool {
        n == *self
    }

    open spec fn input_of(n: i8, i: i8) -> bool {
        i == n
    }

    proof fn lemma_input_of_normal(n: i8, i: i8) {
    }

    fn to_normal(&self) -> (r: i8) {
        *self
    }

    fn from_normal(normal: i8) -> (r: i8) {
        normal
    }

    fn find_missing(&self) -> (r: InputCheckResult) {
        let r = InputCheckResult::empty();
        assert(r@ =~= no_problems());
        r
    }
}

impl Input for i16 {
    type Normal = i16;

    open spec fn missing(&self) -> CheckView {
        no_problems()
    }

    open spec fn normal_is(&self, n: i16) -> bool {
        n == *self
    }

    open spec fn input_of(n: i16, i: i16) -> bool {
        i == n
    }

    proof fn lemma_input_of_normal(n: i16, i: i16) {
    }

    fn to_normal(&self) -> (r: i16) {
        *self
    }

    fn from_normal(normal: i16) -> (r: i16) {
        normal
    }

    fn find_missing(&self) -> (r: InputCheckResult) {
        let r = InputCheckResult::empty();
        assert(r@ =~= no_problems());
        r
    }
}

impl Input for i32 {
    type Normal = i32;

    open spec fn missing(&self) -> CheckView {
        no_problems()
    }

    open spec fn normal_is(&self, n: i32) -> bool {
        n == *self
    }

    open spec fn input_of(n: i32, i: i32) -> bool {
        i == n
    }

    proof fn lemma_input_of_normal(n: i32, i: i32) {
    }

    fn to_normal(&self) -> (r: i32) {
        *self
    }

    fn from_normal(normal: i32) -> (r: i32) {
        normal
    }

    fn find_missing(&self) -> (r: InputCheckResult) {
        let r = InputCheckResult::empty();
        assert(r@ =~= no_problems());
        r
    }
}

impl Input for i64 {
    type Normal = i64;

    open spec fn missing(&self) -> CheckView {
        no_problems()
    }

    open spec fn normal_is(&self, n: i64) -> bool {
        n == *self
    }

    open spec fn input_of(n: i64, i: i64) -> bool {
        i == n
    }

    proof fn lemma_input_of_normal(n: i64, i: i64) {
    }

    fn to_normal(&self) -> (r: i64) {
        *self
    }

    fn from_normal(normal: i64) -> (r: i64) {
        normal
    }

    fn find_missing(&self) -> (r: InputCheckResult) {
        let r = InputCheckResult::empty();
        assert(r@ =~= no_problems());
        r
    }
}

impl Input for i128 {
    type Normal = i128;

    open spec fn missing(&self) -> CheckView {
        no_problems()
    }

    open spec fn normal_is(&self, n: i128) -> bool {
        n == *self
    }

    open spec fn input_of(n: i128, i: i128) -> bool {
        i == n
    }

    proof fn lemma_input_of_normal(n: i128, i: i128) {
    }

    fn to_normal(&self) -> (r: i128) {
        *self
    }

    fn from_normal(normal: i128) -> (r: i128) {
        normal
    }

    fn find_missing(&self) -> (r: InputCheckResult) {
        let r = InputCheckResult::empty();
        assert(r@ =~= no_problems());
        r
    }
}

impl Input for isize {
    type Normal = isize;

    open spec fn missing(&self) -> CheckView {
        no_problems()
    }

    open spec fn normal_is(&self, n: isize) -> bool {
        n == *self
    }

    open spec fn input_of(n: isize, i: isize) -> bool {
        i == n
    }

    proof fn lemma_input_of_normal(n: isize, i: isize) {
    }

    fn to_normal(&self) -> (r: isize) {
        *self
    }

    fn from_normal(normal: isize) -> (r: isize) {
        normal
    }

    fn find_missing(&self) -> (r: InputCheckResult) {
        let r = InputCheckResult::empty();
        assert(r@ =~= no_problems());
        r
    }
}

/// The text of a template reference, `template:<key>`.
pub open spec fn template_yaml(ts: TemplateString) -> Seq<char> {
    "template:"@ + match ts.key {
        Some(k) => k@,
        None => Seq::empty(),
    }
}

/// The text of a template reference, with an empty key when it has none.
fn template_text(ts: &TemplateString) -> (r: String)
    ensures
        r@ == template_yaml(*ts),
{
    match &ts.key {
        Some(_) => ts.yaml(),
        None => {
            let r = crate::text::owned("template:");
            proof {
                reveal_strlit("template:");
            }
            assert(r@ =~= template_yaml(*ts));
            r
        },
    }
}

impl Input for TemplateString {
    type Normal = TemplateString;

    /// A reference with an error message counts as missing, named by the message.
    open spec fn missing(&self) -> CheckView {
        match self.error_message {
            Some(e) => (seq![leaf_path(Some(e@))], Seq::empty()),
            None => no_problems(),
        }
    }

    open spec fn normal_is(&self, n: TemplateString) -> bool {
        n == *self
    }

    open spec fn input_of(n: TemplateString, i: TemplateString) -> bool {
        i == n
    }

    open spec fn normal_valid(n: TemplateString) -> bool {
        n.error_message is None
    }

    proof fn lemma_input_of_normal(n: TemplateString, i: TemplateString) {
    }

    fn to_normal(&self) -> (r: TemplateString) {
        self.clone()
    }

    fn from_normal(normal: TemplateString) -> (r: TemplateString) {
        normal
    }

    fn find_missing(&self) -> (r: InputCheckResult) {
        match &self.error_message {
            Some(e) => InputCheckResult::from_missing(Some(e.clone())),
            None => {
                let r = InputCheckResult::empty();
                assert(r@ =~= no_problems());
                r
            },
        }
    }
}

impl<T: Input> Input for ValueType<T> {
    type Normal = T::Normal;

    /// A given value reports its own problems; a template reference is missing, named by its
    /// text; an invalid value is reported with its yaml and error.
    open spec fn missing(&self) -> CheckView {
        match *self {
            ValueType::Normal(v) => v.missing(),
            ValueType::Template(ts) => (seq![leaf_path(Some(template_yaml(ts)))], Seq::empty()),
            ValueType::Invalid(iy) => (
                Seq::empty(),
                seq![(leaf_path(None), Some(iy.yaml@), opt_view(iy.error))],
            ),
        }
    }

    open spec fn normal_is(&self, n: T::Normal) -> bool {
        *self matches ValueType::Normal(v) && v.normal_is(n)
    }

    open spec fn input_of(n: T::Normal, i: ValueType<T>) -> bool {
        i matches ValueType::Normal(v) && T::input_of(n, v)
    }

    open spec fn normal_valid(n: T::Normal) -> bool {
        T::normal_valid(n)
    }

    proof fn lemma_input_of_normal(n: T::Normal, i: ValueType<T>) {
        T::lemma_input_of_normal(n, i->Normal_0);
    }

    fn to_normal(&self) -> (r: T::Normal) {
        match self {
            ValueType::Normal(v) => v.to_normal(),
            _ => vstd::pervasive::unreached(),
        }
    }

    fn from_normal(normal: T::Normal) -> (r: ValueType<T>) {
        ValueType::Normal(T::from_normal(normal))
    }

    fn find_missing(&self) -> (r: InputCheckResult) {
        match self {
            ValueType::Normal(v) => v.find_missing(),
            ValueType::Template(ts) => InputCheckResult::from_missing(Some(template_text(ts))),
            ValueType::Invalid(iy) => InputCheckResult::from_invalid(
                Some(iy.yaml.clone()),
                crate::input_check::clone_opt(&iy.error),
            ),
        }
    }
}

impl<T: Input> Input for Value<T> {
    type Normal = T::Normal;

    /// An absent value is missing, without a name.
    open spec fn missing(&self) -> CheckView {
        match self.0 {
            Some(v) => v.missing(),
            None => (seq![leaf_path(None)], Seq::empty()),
        }
    }

    open spec fn normal_is(&self, n: T::Normal) -> bool {
        self.0 matches Some(v) && v.normal_is(n)
    }

    open spec fn input_of(n: T::Normal, i: Value<T>) -> bool {
        i.0 matches Some(v) && ValueType::<T>::input_of(n, v)
    }

    open spec fn normal_valid(n: T::Normal) -> bool {
        T::normal_valid(n)
    }

    proof fn lemma_input_of_normal(n: T::Normal, i: Value<T>) {
        ValueType::<T>::lemma_input_of_normal(n, i.0->Some_0);
    }

    fn to_normal(&self) -> (r: T::Normal) {
        match &self.0 {
            Some(v) => v.to_normal(),
            None => vstd::pervasive::unreached(),
        }
    }

    fn from_normal(normal: T::Normal) -> (r: Value<T>) {
        Value(Some(ValueType::<T>::from_normal(normal)))
    }

    fn find_missing(&self) -> (r: InputCheckResult) {
        match &self.0 {
            Some(v) => v.find_missing(),
            None => InputCheckResult::from_missing(None),
        }
    }
}

impl<T: Input> Input for Noneable<T> {
    type Normal = Noneable<T::Normal>;

    /// `none` is a valid value: only a present value can have problems.
    open spec fn missing(&self) -> CheckView {
        match *self {
            Noneable::NotNone(v) => v.missing(),
            Noneable::NoneValue => no_problems(),
        }
    }

    open spec fn normal_is(&self, n: Noneable<T::Normal>) -> bool {
        match (*self, n) {
            (Noneable::NoneValue, Noneable::NoneValue) => true,
            (Noneable::NotNone(v), Noneable::NotNone(m)) => v.normal_is(m),
            _ => false,
        }
    }

    open spec fn input_of(n: Noneable<T::Normal>, i: Noneable<T>) -> bool {
        match (n, i) {
            (Noneable::NoneValue, Noneable::NoneValue) => true,
            (Noneable::NotNone(m), Noneable::NotNone(v)) => T::input_of(m, v),
            _ => false,
        }
    }

    open spec fn normal_valid(n: Noneable<T::Normal>) -> bool {
        n matches Noneable::NotNone(m) ==> T::normal_valid(m)
    }

    proof fn lemma_input_of_normal(n: Noneable<T::Normal>, i: Noneable<T>) {
        if let Noneable::NotNone(m) = n {
            T::lemma_input_of_normal(m, i->NotNone_0);
        }
    }

    fn to_normal(&self) -> (r: Noneable<T::Normal>) {
        match self {
            Noneable::NoneValue => Noneable::NoneValue,
            Noneable::NotNone(v) => Noneable::NotNone(v.to_normal()),
        }
    }

    fn from_normal(normal: Noneable<T::Normal>) -> (r: Noneable<T>) {
        match normal {
            Noneable::NoneValue => Noneable::NoneValue,
            Noneable::NotNone(m) => Noneable::NotNone(T::from_normal(m)),
        }
    }

    fn find_missing(&self) -> (r: InputCheckResult) {
        match self {
            Noneable::NotNone(v) => v.find_missing(),
            Noneable::NoneValue => {
                let r = InputCheckResult::empty();
                assert(r@ =~= no_problems());
                r
            },
        }
    }
}

impl<O: Input> Input for Box<O> {
    type Normal = Box<O::Normal>;

    open spec fn missing(&self) -> CheckView {
        (**self).missing()
    }

    open spec fn normal_is(&self, n: Box<O::Normal>) -> bool {
        (**self).normal_is(*n)
    }

    open spec fn input_of(n: Box<O::Normal>, i: Box<O>) -> bool {
        O::input_of(*n, *i)
    }

    open spec fn normal_valid(n: Box<O::Normal>) -> bool {
        O::normal_valid(*n)
    }

    proof fn lemma_input_of_normal(n: Box<O::Normal>, i: Box<O>) {
        O::lemma_input_of_normal(*n, *i);
    }

    fn to_normal(&self) -> (r: Box<O::Normal>) {
        Box::new((**self).to_normal())
    }

    fn from_normal(normal: Box<O::Normal>) -> (r: Box<O>) {
        Box::new(O::from_normal(*normal))
    }

    fn find_missing(&self) -> (r: InputCheckResult) {
        (**self).find_missing()
    }
}

/// The problems of a pair: those of each part under its position, `0` and `1`.
pub open spec fn pair_missing(a: CheckView, b: CheckView) -> CheckView {
    both(under(a, seq!['0']), under(b, seq!['1']))
}

/// The problems of a part, reported under its position.
fn part_missing(mut c: InputCheckResult, pos: usize) -> (r: InputCheckResult)
    ensures
        r@ == under(c@, crate::text::decimal(pos as nat)),
{
    let name = crate::text::usize_to_string(pos);
    let ghost before = c@;
    c.extend_path(name);
    assert(c@.0 =~= under(before, crate::text::decimal(pos as nat)).0);
    assert(c@.1 =~= under(before, crate::text::decimal(pos as nat)).1);
    c
}

impl<A: Input, B: Input> Input for (A, B) {
    type Normal = (A::Normal, B::Normal);

    open spec fn missing(&self) -> CheckView {
        pair_missing(self.0.missing(), self.1.missing())
    }

    open spec fn normal_is(&self, n: (A::Normal, B::Normal)) -> bool {
        self.0.normal_is(n.0) && self.1.normal_is(n.1)
    }

    open spec fn input_of(n: (A::Normal, B::Normal), i: (A, B)) -> bool {
        A::input_of(n.0, i.0) && B::input_of(n.1, i.1)
    }

    open spec fn normal_valid(n: (A::Normal, B::Normal)) -> bool {
        A::normal_valid(n.0) && B::normal_valid(n.1)
    }

    proof fn lemma_input_of_normal(n: (A::Normal, B::Normal), i: (A, B)) {
        A::lemma_input_of_normal(n.0, i.0);
        B::lemma_input_of_normal(n.1, i.1);
    }

    fn to_normal(&self) -> (r: (A::Normal, B::Normal)) {
        (self.0.to_normal(), self.1.to_normal())
    }

    fn from_normal(normal: (A::Normal, B::Normal)) -> (r: (A, B)) {
        (A::from_normal(normal.0), B::from_normal(normal.1))
    }

    fn find_missing(&self) -> (r: InputCheckResult) {
        let mut result = InputCheckResult::empty();
        let first = part_missing(self.0.find_missing(), 0);
        result.union(&first);
        let second = part_missing(self.1.find_missing(), 1);
        result.union(&second);
        proof {
            reveal_with_fuel(crate::text::decimal, 2);
            assert(crate::text::decimal(0) =~= seq!['0']);
            assert(crate::text::decimal(1) =~= seq!['1']);
        }
        assert(result@.0 =~= self.missing().0);
        assert(result@.1 =~= self.missing().1);
        result
    }
}

/// The problems of the items of a list, each under its position, in order.
pub open spec fn items_missing<O: Input>(s: Seq<O>) -> CheckView
    decreases s.len(),
{
    if s.len() == 0 {
        no_problems()
    } else {
        both(
            items_missing(s.drop_last()),
            under(s.last().missing(), crate::text::decimal((s.len() - 1) as nat)),
        )
    }
}

/// The items of a list have no problems exactly when none of them has.
pub proof fn lemma_items_clean<O: Input>(s: Seq<O>)
    ensures
        is_clean(items_missing(s)) <==> forall|i: int|
            0 <= i < s.len() ==> is_clean(#[trigger] s[i].missing()),
    decreases s.len(),
{
    if s.len() > 0 {
        lemma_items_clean(s.drop_last());
        if is_clean(items_missing(s)) {
            assert forall|i: int| 0 <= i < s.len() implies is_clean(#[trigger] s[i].missing()) by {
                if i < s.len() - 1 {
                    assert(s[i] == s.drop_last()[i]);
                }
            }
        }
        if forall|i: int| 0 <= i < s.len() ==> is_clean(#[trigger] s[i].missing()) {
            assert forall|i: int| 0 <= i < s.drop_last().len() implies is_clean(
                #[trigger] s.drop_last()[i].missing(),
            ) by {
                assert(s.drop_last()[i] == s[i]);
            }
            assert(is_clean(s.last().missing()));
        }
    }
}

impl<O: Input> Input for Vec<O> {
    type Normal = Vec<O::Normal>;

    /// The problems of the items, each under its position in the list.
    open spec fn missing(&self) -> CheckView {
        items_missing(self@)
    }

    open spec fn normal_is(&self, n: Vec<O::Normal>) -> bool {
        &&& n@.len() == self@.len()
        &&& forall|i: int| 0 <= i < self@.len() ==> #[trigger] self@[i].normal_is(n@[i])
    }

    open spec fn input_of(n: Vec<O::Normal>, i: Vec<O>) -> bool {
        &&& i@.len() == n@.len()
        &&& forall|k: int| 0 <= k < n@.len() ==> #[trigger] O::input_of(n@[k], i@[k])
    }

    open spec fn normal_valid(n: Vec<O::Normal>) -> bool {
        forall|k: int| 0 <= k < n@.len() ==> #[trigger] O::normal_valid(n@[k])
    }

    proof fn lemma_input_of_normal(n: Vec<O::Normal>, i: Vec<O>) {
        assert forall|k: int| #![trigger i@[k]] 0 <= k < i@.len() implies is_clean(i@[k].missing())
            && i@[k].normal_is(n@[k]) by {
            O::lemma_input_of_normal(n@[k], i@[k]);
        }
        lemma_items_clean(i@);
    }

    fn to_normal(&self) -> (r: Vec<O::Normal>) {
        proof {
            lemma_items_clean(self@);
        }
        let mut r: Vec<O::Normal> = Vec::new();
        let mut i: usize = 0;
        while i < self.len()
            invariant
                i <= self@.len(),
                r@.len() == i,
                forall|k: int| 0 <= k < self@.len() ==> is_clean(#[trigger] self@[k].missing()),
                forall|k: int| 0 <= k < i ==> #[trigger] self@[k].normal_is(r@[k]),
            decreases self@.len() - i,
        {
            let n = self[i].to_normal();
            r.push(n);
            i += 1;
        }
        r
    }

    fn from_normal(normal: Vec<O::Normal>) -> (r: Vec<O>) {
        let ghost ns = normal@;
        let mut rest = normal;
        let mut r: Vec<O> = Vec::new();
        while rest.len() > 0
            invariant
                r@.len() + rest@.len() == ns.len(),
                rest@ == ns.subrange(r@.len() as int, ns.len() as int),
                forall|k: int| 0 <= k < r@.len() ==> #[trigger] O::input_of(ns[k], r@[k]),
            decreases rest@.len(),
        {
            let n = rest.remove(0);
            r.push(O::from_normal(n));
            assert(rest@ =~= ns.subrange(r@.len() as int, ns.len() as int));
        }
        r
    }

    fn find_missing(&self) -> (r: InputCheckResult) {
        let mut result = InputCheckResult::empty();
        let mut i: usize = 0;
        assert(self@.take(0) =~= Seq::<O>::empty());
        assert(result@ =~= items_missing(self@.take(0)));
        while i < self.len()
            invariant
                i <= self@.len(),
                result@ == items_missing(self@.take(i as int)),
            decreases self@.len() - i,
        {
            let item = part_missing(self[i].find_missing(), i);
            result.union(&item);
            assert(self@.take(i + 1).drop_last() =~= self@.take(i as int));
            assert(self@.take(i + 1).last() == self@[i as int]);
            assert(result@.0 =~= items_missing(self@.take(i + 1)).0);
            assert(result@.1 =~= items_missing(self@.take(i + 1)).1);
            i += 1;
        }
        assert(self@.take(self@.len() as int) =~= self@);
        result
    }
}

/// The problems of the values of a map, each under its key, in the order of the entries.
pub open spec fn entries_missing<O: Input>(s: Seq<(Seq<char>, O)>) -> CheckView
    decreases s.len(),
{
    if s.len() == 0 {
        no_problems()
    } else {
        both(entries_missing(s.drop_last()), under(s.last().1.missing(), s.last().0))
    }
}

/// The values of a map have no problems exactly when none of them has.
pub proof fn lemma_entries_clean<O: Input>(s: Seq<(Seq<char>, O)>)
    ensures
        is_clean(entries_missing(s)) <==> forall|i: int|
            0 <= i < s.len() ==> is_clean(#[trigger] s[i].1.missing()),
    decreases s.len(),
{
    if s.len() > 0 {
        lemma_entries_clean(s.drop_last());
        if is_clean(entries_missing(s)) {
            assert forall|i: int| 0 <= i < s.len() implies is_clean(#[trigger] s[i].1.missing()) by {
                if i < s.len() - 1 {
                    assert(s[i] == s.drop_last()[i]);
                }
            }
        }
        if forall|i: int| 0 <= i < s.len() ==> is_clean(#[trigger] s[i].1.missing()) {
            assert forall|i: int| 0 <= i < s.drop_last().len() implies is_clean(
                #[trigger] s.drop_last()[i].1.missing(),
            ) by {
                assert(s.drop_last()[i] == s[i]);
            }
            assert(is_clean(s.last().1.missing()));
        }
    }
}

impl<O: Input> Input for StringMap<O> {
    type Normal = StringMap<O::Normal>;

    /// The problems of the values, each under its key.
    open spec fn missing(&self) -> CheckView {
        entries_missing(self.entries_spec())
    }

    open spec fn normal_is(&self, n: StringMap<O::Normal>) -> bool {
        &&& n.entries_spec().len() == self.entries_spec().len()
        &&& forall|i: int|
            #![trigger self.entries_spec()[i]]
            0 <= i < self.entries_spec().len() ==> n.entries_spec()[i].0
                == self.entries_spec()[i].0 && self.entries_spec()[i].1.normal_is(
                n.entries_spec()[i].1,
            )
    }

    open spec fn input_of(n: StringMap<O::Normal>, i: StringMap<O>) -> bool {
        &&& i.entries_spec().len() == n.entries_spec().len()
        &&& forall|k: int|
            #![trigger n.entries_spec()[k]]
            0 <= k < n.entries_spec().len() ==> i.entries_spec()[k].0 == n.entries_spec()[k].0
                && O::input_of(n.entries_spec()[k].1, i.entries_spec()[k].1)
    }

    open spec fn normal_valid(n: StringMap<O::Normal>) -> bool {
        forall|k: int|
            0 <= k < n.entries_spec().len() ==> #[trigger] O::normal_valid(n.entries_spec()[k].1)
    }

    proof fn lemma_input_of_normal(n: StringMap<O::Normal>, i: StringMap<O>) {
        assert forall|k: int| #![trigger i.entries_spec()[k]] 0 <= k < i.entries_spec().len()
            implies is_clean(i.entries_spec()[k].1.missing()) && i.entries_spec()[k].1.normal_is(
            n.entries_spec()[k].1,
        ) by {
            assert(n.entries_spec()[k] == n.entries_spec()[k]);
            O::lemma_input_of_normal(n.entries_spec()[k].1, i.entries_spec()[k].1);
        }
        lemma_entries_clean(i.entries_spec());
    }

    fn to_normal(&self) -> (r: StringMap<O::Normal>) {
        proof {
            lemma_entries_clean(self.entries_spec());
        }
        let mut entries: Vec<(String, O::Normal)> = Vec::new();
        let mut i: usize = 0;
        while i < self.entries.len()
            invariant
                i <= self.entries@.len(),
                entries@.len() == i,
                forall|k: int|
                    0 <= k < self.entries_spec().len() ==> is_clean(
                        #[trigger] self.entries_spec()[k].1.missing(),
                    ),
                forall|k: int|
                    #![trigger self.entries_spec()[k]]
                    0 <= k < i ==> entries@[k].0@ == self.entries_spec()[k].0
                        && self.entries_spec()[k].1.normal_is(entries@[k].1),
            decreases self.entries@.len() - i,
        {
            assert(self.entries_spec()[i as int] == (
                self.entries@[i as int].0@,
                self.entries@[i as int].1,
            ));
            assert(is_clean(self.entries_spec()[i as int].1.missing()));
            let key = self.entries[i].0.clone();
            let value = self.entries[i].1.to_normal();
            entries.push((key, value));
            i += 1;
        }
        let r = StringMap { entries };
        assert forall|k: int| #![trigger self.entries_spec()[k]] 0 <= k < self.entries_spec().len()
            implies r.entries_spec()[k].0 == self.entries_spec()[k].0
            && self.entries_spec()[k].1.normal_is(r.entries_spec()[k].1) by {
            assert(r.entries_spec()[k] == (r.entries@[k].0@, r.entries@[k].1));
        }
        r
    }

    fn from_normal(normal: StringMap<O::Normal>) -> (r: StringMap<O>) {
        let ghost ns = normal.entries_spec();
        let ghost raw = normal.entries@;
        let mut rest = normal.entries;
        let mut entries: Vec<(String, O)> = Vec::new();
        while rest.len() > 0
            invariant
                entries@.len() + rest@.len() == raw.len(),
                ns == raw.map_values(|e: (String, O::Normal)| (e.0@, e.1)),
                rest@ == raw.subrange(entries@.len() as int, raw.len() as int),
                forall|k: int|
                    #![trigger ns[k]]
                    0 <= k < entries@.len() ==> entries@[k].0@ == ns[k].0 && O::input_of(
                        ns[k].1,
                        entries@[k].1,
                    ),
            decreases rest@.len(),
        {
            let k = entries.len();
            let (key, value) = rest.remove(0);
            assert(ns[k as int] == (key@, value));
            entries.push((key, O::from_normal(value)));
            assert(rest@ =~= raw.subrange(entries@.len() as int, raw.len() as int));
        }
        let r = StringMap { entries };
        assert forall|k: int| #![trigger ns[k]] 0 <= k < ns.len() implies r.entries_spec()[k].0
            == ns[k].0 && O::input_of(ns[k].1, r.entries_spec()[k].1) by {
            assert(r.entries_spec()[k] == (r.entries@[k].0@, r.entries@[k].1));
        }
        r
    }

    fn find_missing(&self) -> (r: InputCheckResult) {
        let mut result = InputCheckResult::empty();
        let mut i: usize = 0;
        assert(self.entries_spec().take(0) =~= Seq::<(Seq<char>, O)>::empty());
        assert(result@ =~= entries_missing(self.entries_spec().take(0)));
        while i < self.entries.len()
            invariant
                i <= self.entries@.len(),
                result@ == entries_missing(self.entries_spec().take(i as int)),
            decreases self.entries@.len() - i,
        {
            let mut item = self.entries[i].1.find_missing();
            let ghost before = item@;
            item.extend_path(self.entries[i].0.clone());
            assert(item@.0 =~= under(before, self.entries_spec()[i as int].0).0);
            assert(item@.1 =~= under(before, self.entries_spec()[i as int].0).1);
            result.union(&item);
            assert(self.entries_spec().take(i + 1).drop_last() =~= self.entries_spec().take(i as int));
            assert(self.entries_spec().take(i + 1).last() == self.entries_spec()[i as int]);
            assert(result@.0 =~= entries_missing(self.entries_spec().take(i + 1)).0);
            assert(result@.1 =~= entries_missing(self.entries_spec().take(i + 1)).1);
            i += 1;
        }
        assert(self.entries_spec().take(self.entries@.len() as int) =~= self.entries_spec());
        result
    }
}

impl Input for JMEString {
    type Normal = JMEString;

    open spec fn missing(&self) -> CheckView {
        no_problems()
    }

    open spec fn normal_is(&self, n: JMEString) -> bool {
        n == *self
    }

    open spec fn input_of(n: JMEString, i: JMEString) -> bool {
        i == n
    }

    proof fn lemma_input_of_normal(n: JMEString, i: JMEString) {
    }

    fn to_normal(&self) -> (r: JMEString) {
        self.clone()
    }

    fn from_normal(normal: JMEString) -> (r: JMEString) {
        normal
    }

    fn find_missing(&self) -> (r: InputCheckResult) {
        let r = InputCheckResult::empty();
        assert(r@ =~= no_problems());
        r
    }
}

impl<T: Input> Input for VariableValued<T> {
    type Normal = VariableValued<T::Normal>;

    /// An expression has no problems of its own; a direct value has its own.
    open spec fn missing(&self) -> CheckView {
        match *self {
            VariableValued::Variable(_) => no_problems(),
            VariableValued::Value(v) => v.missing(),
        }
    }

    open spec fn normal_is(&self, n: VariableValued<T::Normal>) -> bool {
        match (*self, n) {
            (VariableValued::Variable(a), VariableValued::Variable(b)) => a == b,
            (VariableValued::Value(v), VariableValued::Value(m)) => v.normal_is(m),
            _ => false,
        }
    }

    open spec fn input_of(n: VariableValued<T::Normal>, i: VariableValued<T>) -> bool {
        match (n, i) {
            (VariableValued::Variable(a), VariableValued::Variable(b)) => a == b,
            (VariableValued::Value(m), VariableValued::Value(v)) => T::input_of(m, v),
            _ => false,
        }
    }

    open spec fn normal_valid(n: VariableValued<T::Normal>) -> bool {
        n matches VariableValued::Value(m) ==> T::normal_valid(m)
    }

    proof fn lemma_input_of_normal(n: VariableValued<T::Normal>, i: VariableValued<T>) {
        if let VariableValued::Value(m) = n {
            T::lemma_input_of_normal(m, i->Value_0);
        }
    }

    fn to_normal(&self) -> (r: VariableValued<T::Normal>) {
        match self {
            VariableValued::Variable(s) => VariableValued::Variable(s.clone()),
            VariableValued::Value(v) => VariableValued::Value(v.to_normal()),
        }
    }

    fn from_normal(normal: VariableValued<T::Normal>) -> (r: VariableValued<T>) {
        match normal {
            VariableValued::Variable(s) => VariableValued::Variable(s),
            VariableValued::Value(m) => VariableValued::Value(T::from_normal(m)),
        }
    }

    fn find_missing(&self) -> (r: InputCheckResult) {
        match self {
            VariableValued::Variable(s) => s.find_missing(),
            VariableValued::Value(v) => v.find_missing(),
        }
    }
}

} // verus!
