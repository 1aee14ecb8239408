//! Rumbas: the verified core of a tool that turns yaml descriptions of exercises into Numbas exams.
use vstd::prelude::*;

pub mod choose_one;
pub mod cli;
pub mod custom_part_type;
pub mod default;
pub mod dependency_manager;
pub mod examples;
pub mod file_string;
pub mod function;
pub mod input;
pub mod input_check;
pub mod jme;
pub mod jme_part;
pub mod matrix;
pub mod noneable;
pub mod optional_check;
pub mod ordered;
pub mod overwrite;
pub mod part_settings;
pub mod path;
pub mod question_data;
pub mod range;
pub mod rc;
pub mod repo;
pub mod rumbas_check;
pub mod sanitize;
pub mod string_map;
pub mod text;
pub mod to_rumbas;
pub mod translatable;
pub mod updates;
pub mod yaml_doc;
pub mod yaml_text;
pub mod value;
pub mod variable;

verus! {

} // verus!
