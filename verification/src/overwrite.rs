//! Filling in input data with the values of other input data, such as default settings.
use crate::input::Input;
use crate::jme::{JMEString, VariableValued};
use crate::noneable::Noneable;
use crate::string_map::StringMap;
use crate::value::{Value, ValueType};
use vstd::prelude::*;

verus! {

/// Input data whose gaps can be filled in from other data of the same shape.
pub trait Overwrite<Item>: Input {
    /// Whether `new` is what overwriting `old` with `other` gives.
    spec fn overwritten(old: Self, other: Item, new: Self) -> bool;

    /// Fills in this data from `other`.
    fn overwrite(&mut self, other: &Item)
        ensures
            Self::overwritten(*old(self), *other, *final(self)),
    ;
}

/// Whether `b` is a copy of `a`, as `clone` makes it.
pub open spec fn value_copy<T: Clone>(a: Value<T>, b: Value<T>) -> bool {
    match (a.0, b.0) {
        (None, None) => true,
        (Some(ValueType::Template(x)), Some(ValueType::Template(y))) => x == y,
        (Some(ValueType::Normal(x)), Some(ValueType::Normal(y))) => cloned(x, y),
        (Some(ValueType::Invalid(x)), Some(ValueType::Invalid(y))) => x == y,
        _ => false,
    }
}

impl<T: Overwrite<T>> Overwrite<ValueType<T>> for ValueType<T> {
    /// Two given values are merged; anything else is kept as it is.
    open spec fn overwritten(old: ValueType<T>, other: ValueType<T>, new: ValueType<T>) -> bool {
        match (old, other) {
            (ValueType::Normal(a), ValueType::Normal(b)) => new matches ValueType::Normal(c)
                && T::overwritten(a, b, c),
            _ => new == old,
        }
    }

    fn overwrite(&mut self, other: &ValueType<T>) {
        match self {
            ValueType::Normal(val) => match other {
                ValueType::Normal(other_val) => val.overwrite(other_val),
                _ => {},
            },
            _ => {},
        }
    }
}

impl<T: Overwrite<T> + Clone> Overwrite<Value<T>> for Value<T> {
    /// An absent value takes a copy of the other one; two present values are merged; a present
    /// value is otherwise kept.
    open spec fn overwritten(old: Value<T>, other: Value<T>, new: Value<T>) -> bool {
        match (old.0, other.0) {
            (None, _) => value_copy(other, new),
            (Some(a), Some(b)) => new.0 matches Some(c) && ValueType::<T>::overwritten(a, b, c),
            (Some(_), None) => new == old,
        }
    }

    fn overwrite(&mut self, other: &Value<T>) {
        match &mut self.0 {
            Some(val) => match &other.0 {
                Some(other_val) => val.overwrite(other_val),
                None => {},
            },
            None => {
                *self = other.clone();
            },
        }
    }
}

impl<T: Overwrite<T>> Overwrite<Noneable<T>> for Noneable<T> {
    /// Two present values are merged; `none` is a valid value and is kept.
    open spec fn overwritten(old: Noneable<T>, other: Noneable<T>, new: Noneable<T>) -> bool {
        match (old, other) {
            (Noneable::NotNone(a), Noneable::NotNone(b)) => new matches Noneable::NotNone(c)
                && T::overwritten(a, b, c),
            _ => new == old,
        }
    }

    fn overwrite(&mut self, other: &Noneable<T>) {
        match self {
            Noneable::NotNone(val) => match other {
                Noneable::NotNone(other_val) => val.overwrite(other_val),
                _ => {},
            },
            Noneable::NoneValue => {},
        }
    }
}

impl<T: Overwrite<T>> Overwrite<Box<T>> for Box<T> {
    open spec fn overwritten(old: Box<T>, other: Box<T>, new: Box<T>) -> bool {
        T::overwritten(*old, *other, *new)
    }

    fn overwrite(&mut self, other: &Box<T>) {
        let inner: &mut T = &mut **self;
        inner.overwrite(&**other);
    }
}

impl<A: Overwrite<A>, B: Overwrite<B>> Overwrite<(A, B)> for (A, B) {
    open spec fn overwritten(old: (A, B), other: (A, B), new: (A, B)) -> bool {
        A::overwritten(old.0, other.0, new.0) && B::overwritten(old.1, other.1, new.1)
    }

    fn overwrite(&mut self, other: &(A, B)) {
        self.0.overwrite(&other.0);
        self.1.overwrite(&other.1);
    }
}

impl<O: Overwrite<O>> Overwrite<StringMap<O>> for StringMap<O> {
    /// Maps are kept as they are.
    open spec fn overwritten(old: StringMap<O>, other: StringMap<O>, new: StringMap<O>) -> bool {
        new == old
    }

    fn overwrite(&mut self, other: &StringMap<O>) {
    }
}

impl<O: Overwrite<O>> Overwrite<Vec<O>> for Vec<O> {
    /// Lists are kept as they are.
    open spec fn overwritten(old: Vec<O>, other: Vec<O>, new: Vec<O>) -> bool {
        new == old
    }

    fn overwrite(&mut self, other: &Vec<O>) {
    }
}

impl Overwrite<String> for String {
    /// A given value is kept.
    open spec fn overwritten(old: String, other: String, new: String) -> bool {
        new == old
    }

    fn overwrite(&mut self, other: &String) {
    }
}

impl Overwrite<bool> for bool {
    /// A given value is kept.
    open spec fn overwritten(old: bool, other: bool, new: bool) -> bool {
        new == old
    }

    fn overwrite(&mut self, other: &bool) {
    }
}

impl Overwrite<u8> for u8 {
    /// A given value is kept.
    open spec fn overwritten(old: u8, other: u8, new: u8) -> bool {
        new == old
    }

    fn overwrite(&mut self, other: &u8) {
    }
}

impl Overwrite<u16> for u16 {
    /// A given value is kept.
    open spec fn overwritten(old: u16, other: u16, new: u16) -> bool {
        new == old
    }

    fn overwrite(&mut self, other: &u16) {
    }
}

impl Overwrite<u32> for u32 {
    /// A given value is kept.
    open spec fn overwritten(old: u32, other: u32, new: u32) -> bool {
        new == old
    }

    fn overwrite(&mut self, other: &u32) {
    }
}

impl Overwrite<u64> for u64 {
    /// A given value is kept.
    open spec fn overwritten(old: u64, other: u64, new: u64) -> bool {
        new == old
    }

    fn overwrite(&mut self, other: &u64) {
    }
}

impl Overwrite<u128> for u128 {
    /// A given value is kept.
    open spec fn overwritten(old: u128, other: u128, new: u128) -> bool {
        new == old
    }

    fn overwrite(&mut self, other: &u128) {
    }
}

impl Overwrite<usize> for usize {
    /// A given value is kept.
    open spec fn overwritten(old: usize, other: usize, new: usize) -> bool {
        new == old
    }

    fn overwrite(&mut self, other: &usize) {
    }
}

impl Overwrite<i8> for i8 {
    /// A given value is kept.
    open spec fn overwritten(old: i8, other: i8, new: i8) -> bool {
        new == old
    }

    fn overwrite(&mut self, other: &i8) {
    }
}

impl Overwrite<i16> for i16 {
    /// A given value is kept.
    open spec fn overwritten(old: i16, other: i16, new: i16) -> bool {
        new == old
    }

    fn overwrite(&mut self, other: &i16) {
    }
}

impl Overwrite<i32> for i32 {
    /// A given value is kept.
    open spec fn overwritten(old: i32, other: i32, new: i32) -> bool {
        new == old
    }

    fn overwrite(&mut self, other: &i32) {
    }
}

impl Overwrite<i64> for i64 {
    /// A given value is kept.
    open spec fn overwritten(old: i64, other: i64, new: i64) -> bool {
        new == old
    }

    fn overwrite(&mut self, other: &i64) {
    }
}

impl Overwrite<i128> for i128 {
    /// A given value is kept.
    open spec fn overwritten(old: i128, other: i128, new: i128) -> bool {
        new == old
    }

    fn overwrite(&mut self, other: &i128) {
    }
}

impl Overwrite<isize> for isize {
    /// A given value is kept.
    open spec fn overwritten(old: isize, other: isize, new: isize) -> bool {
        new == old
    }

    fn overwrite(&mut self, other: &isize) {
    }
}

/// Overwriting a value with an absent one changes nothing.
pub proof fn lemma_overwrite_with_absent<T: Overwrite<T> + Clone>(old: Value<T>, new: Value<T>)
    requires
        Value::<T>::overwritten(old, Value(None), new),
    ensures
        new == old,
{
}

/// A present value stays present when it is overwritten, and an absent one becomes a copy of the
/// other value.
pub proof fn lemma_overwrite_keeps_presence<T: Overwrite<T> + Clone>(
    old: Value<T>,
    other: Value<T>,
    new: Value<T>,
)
    requires
        Value::<T>::overwritten(old, other, new),
    ensures
        old.0 is Some ==> new.0 is Some,
        old.0 is None ==> value_copy(other, new),
{
}

impl Overwrite<JMEString> for JMEString {
    /// A given expression is kept.
    open spec fn overwritten(old: JMEString, other: JMEString, new: JMEString) -> bool {
        new == old
    }

    fn overwrite(&mut self, other: &JMEString) {
    }
}

impl<T: Overwrite<T>> Overwrite<VariableValued<T>> for VariableValued<T> {
    /// Two expressions, or two direct values, are merged; otherwise the value is kept.
    open spec fn overwritten(
        old: VariableValued<T>,
        other: VariableValued<T>,
        new: VariableValued<T>,
    ) -> bool {
        match (old, other) {
            (VariableValued::Variable(a), VariableValued::Variable(b)) => new matches VariableValued::Variable(c)
                && JMEString::overwritten(a, b, c),
            (VariableValued::Value(a), VariableValued::Value(b)) => new matches VariableValued::Value(c)
                && T::overwritten(a, b, c),
            _ => new == old,
        }
    }

    fn overwrite(&mut self, other: &VariableValued<T>) {
        match self {
            VariableValued::Variable(val) => match other {
                VariableValued::Variable(other_val) => val.overwrite(other_val),
                _ => {},
            },
            VariableValued::Value(val) => match other {
                VariableValued::Value(other_val) => val.overwrite(other_val),
                _ => {},
            },
        }
    }
}

/// Overwriting a pair overwrites each of its parts with the matching part of the other pair.
pub proof fn lemma_overwrite_pair<A: Overwrite<A>, B: Overwrite<B>>(
    old: (A, B),
    other: (A, B),
    new: (A, B),
)
    requires
        <(A, B) as Overwrite<(A, B)>>::overwritten(old, other, new),
    ensures
        A::overwritten(old.0, other.0, new.0),
        B::overwritten(old.1, other.1, new.1),
{
}

/// Overwriting a pair of values fills in each absent part with a copy of the matching part of
/// the other pair, and keeps each present part present.
pub proof fn lemma_overwrite_pair_of_values<
    A: Overwrite<A> + Clone,
    B: Overwrite<B> + Clone,
>(old: (Value<A>, Value<B>), other: (Value<A>, Value<B>), new: (Value<A>, Value<B>))
    requires
        <(Value<A>, Value<B>) as Overwrite<(Value<A>, Value<B>)>>::overwritten(old, other, new),
    ensures
        old.0.0 is None ==> value_copy(other.0, new.0),
        old.1.0 is None ==> value_copy(other.1, new.1),
        old.0.0 is Some ==> new.0.0 is Some,
        old.1.0 is Some ==> new.1.0 is Some,
{
    lemma_overwrite_pair(old, other, new);
    lemma_overwrite_keeps_presence(old.0, other.0, new.0);
    lemma_overwrite_keeps_presence(old.1, other.1, new.1);
}

} // verus!
