//! The variables of a question.
use crate::translatable::FileString;
use crate::input_check::opt_view;
use vstd::prelude::*;

verus! {

/// The group of the variables that are not put in a group of their own.
pub open spec fn ungrouped_group() -> Seq<char> {
    "Ungrouped variables"@
}

/// The name and the group under which a variable is written for Numbas.
#[derive(Debug)]
pub struct VariableToNumbasHelper {
    name: String,
    group: String,
}

impl View for VariableToNumbasHelper {
    /// The name and the group.
    type V = (Seq<char>, Seq<char>);

    closed spec fn view(&self) -> (Seq<char>, Seq<char>) {
        (self.name@, self.group@)
    }
}

impl VariableToNumbasHelper {
    /// A variable with the given name in the given group.
    pub fn with_group(name: String, group: String) -> (r: Self)
        ensures
            r@ == (name@, group@),
    {
        VariableToNumbasHelper { name, group }
    }

    /// A variable with the given name in the group of ungrouped variables.
    pub fn ungrouped(name: String) -> (r: Self)
        ensures
            r@ == (name@, ungrouped_group()),
    {
        Self::with_group(name, crate::text::owned("Ungrouped variables"))
    }
}

/// The different template types of a variable.
#[derive(Debug, PartialEq, Eq, Structural)]
pub enum VariableTemplateType {
    /// Not specified
    Anything,
    /// A list of numbers
    ListOfNumbers,
    /// A list of strings
    ListOfStrings,
    /// A long string
    LongString,
    /// A number
    Number,
    /// A random number from a range
    RandomRange,
    /// A range
    Range,
    /// A string
    String,
}

/// A variable of a question.
#[derive(Debug)]
pub struct Variable {
    pub definition: FileString,
    pub description: String,
    pub template_type: VariableTemplateType,
}

impl Variable {
    /// A variable of the given type with the given definition and no description.
    pub fn new(template_type: VariableTemplateType, definition: &str) -> (r: Variable)
        ensures
            r.template_type == template_type,
            r.definition.file_name is None,
            opt_view(r.definition.content) == Some(definition@),
            r.definition.translated_content.entries_spec().len() == 0,
            r.description@ == Seq::<char>::empty(),
    {
        Variable {
            template_type,
            definition: FileString::s(definition),
            description: String::new(),
        }
    }
}

} // verus!
