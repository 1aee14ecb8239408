//! Settings of question parts that are plain choices.
use crate::translatable::{ContentAreaTranslatableString, JMETranslatableString};
use vstd::prelude::*;

verus! {

/// The notation styles that a number may be written in.
#[derive(Debug, PartialEq, Eq, Structural)]
pub enum AnswerStyle {
    /// English style - commas separate thousands, dot for decimal point
    English,
    /// Plain English style - no thousands separator, dot for decimal point
    EnglishPlain,
    /// English SI style - spaces separate thousands, dot for decimal point
    EnglishSI,
    /// Continental European style - dots separate thousands, comma for decimal poin
    European,
    /// Plain French style - no thousands separator, comma for decimal point
    EuropeanPlain,
    /// French SI style - spaces separate thousands, comma for decimal point
    FrenchSI,
    /// Indian style - commas separate groups, dot for decimal point. The rightmost group is three digits, other groups are two digits.
    Indian,
    /// Significand-exponent ("scientific") style
    Scientific,
    /// Swiss style - apostrophes separate thousands, dot for decimal point
    Swiss,
}

/// How the answer of a pattern match part is compared with the pattern.
#[derive(Debug, PartialEq, Eq, Structural)]
pub enum PatternMatchMode {
    /// The pattern is a regular expression
    Regex,
    /// The answer must equal the pattern
    Exact,
}

/// An answer of a multiple choice part.
#[derive(Debug)]
pub struct MultipleChoiceAnswer {
    pub statement: ContentAreaTranslatableString,
    pub feedback: ContentAreaTranslatableString,
    pub marks: JMETranslatableString,
}

/// How the cells of a multiple choice part are marked.
#[derive(Debug, PartialEq, Eq, Structural)]
pub enum MultipleChoiceMarkingMethod {
    /// The marks of the ticked cells are added up
    SumTickedCells,
    /// Each cell that is ticked correctly gives marks
    ScorePerMatchedCell,
    /// All marks or none
    AllOrNothing,
}

/// How the choices of a match-answers part are shown.
#[derive(Debug, PartialEq, Eq, Structural)]
pub enum MatchAnswerWithItemsDisplay {
    /// One choice per item
    Radio,
    /// Any number of choices per item
    Check(MatchAnswersWithChoicesDisplayCheck),
}

/// How checked choices are marked.
#[derive(Debug, PartialEq, Eq, Structural)]
pub struct MatchAnswersWithChoicesDisplayCheck {
    pub marking_method: MultipleChoiceMarkingMethod,
}

/// What is done when the student picks too few or too many choices.
#[derive(Debug, PartialEq, Eq, Structural)]
pub enum MultipleChoiceWarningType {
    /// No warning (`none` in the yaml)
    NoWarning,
    Prevent,
}

/// Which cells of the grid are shown.
#[derive(Debug, PartialEq, Eq, Structural)]
pub enum MatchAnswersWithChoicesLayoutType {
    All,
    LowerTriangle,
}

/// The layout of the grid of a match-answers part.
#[derive(Debug, PartialEq, Eq, Structural)]
pub struct MatchAnswersWithChoicesLayout {
    pub layout_type: MatchAnswersWithChoicesLayoutType,
}

/// How the answer of a JME part is checked, with a number of decimal places or significant
/// figures.
#[derive(Debug, PartialEq, Eq, Structural)]
pub struct CheckingTypeDataNatural {
    /// Amount of decimal places or significant figures
    pub amount: usize,
}

/// A value that a custom part type gets from its input: a box that is ticked or not, or code.
#[derive(Debug, PartialEq)]
pub enum CustomPartInputTypeValue {
    CheckBox(bool),
    Code(String),
}

/// When the answers to earlier parts replace question variables.
#[derive(Debug, PartialEq, Eq, Structural)]
pub enum VariableReplacementStrategy {
    /// The answer is first marked with the original values; the replacements are used when that
    /// gives less than full credit and they give more.
    OriginalFirst,
    /// The answer is only marked with the replacements.
    AlwaysReplace,
}

/// A question variable that takes the answer to another part.
#[derive(Debug, PartialEq)]
pub struct VariableReplacement {
    /// The name of the variable to replace
    pub variable: String,
    /// The path to the part whose answer the variable takes
    pub part_answer_to_use: String,
    /// Whether that part must be answered before this one
    pub must_be_answered: bool,
}

/// Marking that uses the answers to earlier parts.
#[derive(Debug, PartialEq)]
pub struct AdaptiveMarking {
    /// The variable replacements to do
    pub variable_replacements: Vec<VariableReplacement>,
    /// When the replacements are used
    pub variable_replacement_strategy: VariableReplacementStrategy,
    /// The marks that are taken off when the replacements are used
    pub penalty: usize,
}

} // verus!
