//! The settings and input widgets of custom question part types.
use crate::noneable::Noneable;
use crate::part_settings::AnswerStyle;
use crate::translatable::{
    EmbracedJMETranslatableString, JMETranslatableString, TranslatableString,
};
use vstd::prelude::*;

verus! {

/// What every setting of a custom part type has.
#[derive(Debug)]
pub struct CustomPartTypeSettingSharedData {
    pub name: TranslatableString,
    pub numbas_label: TranslatableString,
    pub documentation_url: Noneable<TranslatableString>,
    pub numbas_hint: TranslatableString,
}

/// A setting whose value is a string.
#[derive(Debug)]
pub struct CustomPartTypeSettingString {
    pub shared_data: CustomPartTypeSettingSharedData,
    pub evaluate_enclosed_expressions: bool,
    pub default_value: Noneable<String>,
}

/// A setting whose value is a mathematical expression.
#[derive(Debug)]
pub struct CustomPartTypeSettingMathematicalExpression {
    pub shared_data: CustomPartTypeSettingSharedData,
    pub evaluate_enclosed_expressions: bool,
    pub default_value: Noneable<EmbracedJMETranslatableString>,
}

/// A setting whose value is JME code.
#[derive(Debug)]
pub struct CustomPartTypeSettingCode {
    pub shared_data: CustomPartTypeSettingSharedData,
    pub default_value: Noneable<JMETranslatableString>,
    pub evaluate: bool,
}

/// A setting that is a check box.
#[derive(Debug)]
pub struct CustomPartTypeSettingCheckBox {
    pub shared_data: CustomPartTypeSettingSharedData,
    pub default_value: bool,
}

/// A setting that is chosen from a drop down list.
#[derive(Debug)]
pub struct CustomPartTypeSettingDropDown {
    pub shared_data: CustomPartTypeSettingSharedData,
    pub default_value: Noneable<TranslatableString>,
    pub choices: Vec<CustomPartTypeSettingDropDownChoice>,
}

/// A choice of a drop down setting.
#[derive(Debug)]
pub struct CustomPartTypeSettingDropDownChoice {
    pub value: TranslatableString,
    pub label: TranslatableString,
}

/// An option of an input widget, which is static or can be changed by the part.
#[derive(Debug)]
pub struct CustomPartInputOptionValueBool {
    pub value: bool,
    pub is_static: bool,
}

/// A text option of an input widget.
#[derive(Debug)]
pub struct CustomPartInputOptionValueTranslatableString {
    pub value: TranslatableString,
    pub is_static: bool,
}

/// An option of an input widget that is a list of texts.
#[derive(Debug)]
pub struct CustomPartInputOptionValueTranslatableStrings {
    pub value: Vec<TranslatableString>,
    pub is_static: bool,
}

/// An option of an input widget that is a list of notation styles.
#[derive(Debug)]
pub struct CustomPartInputOptionValueAnswerStyles {
    pub value: Vec<AnswerStyle>,
    pub is_static: bool,
}

/// The input widget through which the student answers a custom part.
#[derive(Debug)]
pub enum CustomPartInputWidget {
    String(CustomPartStringInputOptions),
    Number(CustomPartNumberInputOptions),
    RadioGroup(CustomPartRadioGroupInputOptions),
}

/// The options of a text input.
#[derive(Debug)]
pub struct CustomPartStringInputOptions {
    pub hint: CustomPartInputOptionValueTranslatableString,
    pub correct_answer: JMETranslatableString,
    pub allow_empty: CustomPartInputOptionValueBool,
}

/// The options of a number input.
#[derive(Debug)]
pub struct CustomPartNumberInputOptions {
    pub hint: CustomPartInputOptionValueTranslatableString,
    pub correct_answer: JMETranslatableString,
    pub allow_fractions: CustomPartInputOptionValueBool,
    pub allowed_notation_styles: CustomPartInputOptionValueAnswerStyles,
}

/// The options of a group of radio buttons.
#[derive(Debug)]
pub struct CustomPartRadioGroupInputOptions {
    pub hint: CustomPartInputOptionValueTranslatableString,
    pub correct_answer: JMETranslatableString,
    pub choices: CustomPartInputOptionValueTranslatableStrings,
}

} // verus!
