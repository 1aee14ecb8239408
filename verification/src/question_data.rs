//! The preamble and the resources of a question.
use crate::path::FilePath;
use crate::translatable::FileString;
use vstd::prelude::*;

verus! {

/// Javascript and css code that is added to a question.
#[derive(Debug)]
pub struct Preamble {
    pub js: FileString,
    pub css: FileString,
}

/// A file that a question uses: its name and its path.
#[derive(Debug)]
pub struct ResourcePath {
    pub resource_name: String,
    pub resource_path: FilePath,
}

} // verus!
