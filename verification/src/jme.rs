//! Expressions in the JME language of Numbas, and values that may be given by such an expression.
use vstd::prelude::*;

verus! {

/// An expression in the JME language, kept as the text that was written.
#[derive(Debug, PartialEq)]
pub struct JMEString {
    pub text: String,
}

impl Clone for JMEString {
    fn clone(&self) -> (r: Self)
        ensures
            r == *self,
    {
        JMEString { text: self.text.clone() }
    }
}

impl JMEString {
    /// The expression with the given text.
    pub fn new(text: &str) -> (r: Self)
        ensures
            r.text@ == text@,
    {
        JMEString { text: crate::text::owned(text) }
    }
}

/// A value that is given directly or by a JME expression.
#[derive(Debug, PartialEq)]
pub enum VariableValued<T> {
    Variable(JMEString),
    Value(T),
}

impl<T> VariableValued<T> {
    /// Applies `f` to a direct value; an expression is kept.
    pub fn map<U, F: FnOnce(T) -> U>(self, f: F) -> (r: VariableValued<U>)
        requires
            self matches VariableValued::Value(x) ==> f.requires((x,)),
        ensures
            match self {
                VariableValued::Variable(x) => r == VariableValued::<U>::Variable(x),
                VariableValued::Value(x) => r matches VariableValued::Value(y) && f.ensures(
                    (x,),
                    y,
                ),
            },
    {
        match self {
            VariableValued::Variable(x) => VariableValued::Variable(x),
            VariableValued::Value(x) => VariableValued::Value(f(x)),
        }
    }
}

/// A value that is given directly or by a JME expression; in the yaml a direct value is tried
/// first.
#[derive(Debug, PartialEq)]
pub enum ReverseVariableValued<T> {
    Value(T),
    Variable(JMEString),
}

impl Clone for ReverseVariableValued<usize> {
    fn clone(&self) -> (r: Self)
        ensures
            r == *self,
    {
        match self {
            ReverseVariableValued::Value(v) => ReverseVariableValued::Value(*v),
            ReverseVariableValued::Variable(s) => ReverseVariableValued::Variable(s.clone()),
        }
    }
}

/// Whether two sizes are the same: equal numbers, or expressions with the same text.
pub open spec fn same_size(a: ReverseVariableValued<usize>, b: ReverseVariableValued<usize>) -> bool {
    match (a, b) {
        (ReverseVariableValued::Value(x), ReverseVariableValued::Value(y)) => x == y,
        (ReverseVariableValued::Variable(x), ReverseVariableValued::Variable(y)) => x.text@
            == y.text@,
        _ => false,
    }
}

impl ReverseVariableValued<usize> {
    /// Whether two sizes are the same (`==`).
    pub fn same_as(&self, other: &Self) -> (r: bool)
        ensures
            r == same_size(*self, *other),
    {
        match (self, other) {
            (ReverseVariableValued::Value(x), ReverseVariableValued::Value(y)) => *x == *y,
            (ReverseVariableValued::Variable(x), ReverseVariableValued::Variable(y)) => {
                crate::text::same_text(x.text.as_str(), y.text.as_str())
            },
            _ => false,
        }
    }
}

} // verus!
