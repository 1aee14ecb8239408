//! Functions that a question defines for use in its expressions.
use crate::translatable::{JMETranslatableString, TranslatableString};
use vstd::prelude::*;

verus! {

/// A function of a question.
#[derive(Debug)]
pub struct Function {
    /// The names and types of the parameters
    pub parameters: Vec<(String, FunctionType)>,
    /// The type of the result
    pub output_type: FunctionType,
    /// How the result is computed
    pub definition: FunctionDefinition,
}

/// How a function is defined.
#[derive(Debug)]
pub enum FunctionDefinition {
    JME(FunctionDefinitionJME),
    Javascript(FunctionDefinitionJavascript),
}

/// A function defined by a JME expression.
#[derive(Debug)]
pub struct FunctionDefinitionJME {
    pub definition: JMETranslatableString,
}

/// A function defined by javascript code.
#[derive(Debug)]
pub struct FunctionDefinitionJavascript {
    pub definition: TranslatableString,
}

/// The types of parameters and results of functions.
#[derive(Debug, PartialEq, Eq, Structural)]
pub enum FunctionType {
    Boolean,
    Decimal,
    Dictionary,
    Expression,
    HTML,
    Integer,
    KeyPair,
    List,
    Matrix,
    Nothing,
    Number,
    Range,
    Rational,
    /// A set (`set` in the yaml)
    SetValue,
    String,
    Vector,
    ExtensionGeogebraApplet,
}

} // verus!
