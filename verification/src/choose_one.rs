//! How the choices of a choose-one question part are shown.
use vstd::prelude::*;

verus! {

/// How the choices are shown.
#[derive(Debug, PartialEq, Eq, Structural)]
pub enum ChooseOneDisplay {
    /// The choices are shown as a selection box; the student can click to show the choices in a
    /// vertical list.
    DropDown,
    /// The choices are shown separately, in-line with the part prompt.
    Radio {
        /// How many columns the choices are displayed in. If 0, the choices are displayed on a
        /// single line, wrapped at the edges of the screen.
        columns: usize,
    },
}

impl ChooseOneDisplay {
    /// The number of columns: those of the radio buttons, `0` for a drop down list.
    pub fn get_nb_columns(&self) -> (r: usize)
        ensures
            r == match *self {
                ChooseOneDisplay::DropDown => 0,
                ChooseOneDisplay::Radio { columns } => columns,
            },
    {
        match self {
            ChooseOneDisplay::DropDown => 0,
            ChooseOneDisplay::Radio { columns } => *columns,
        }
    }
}

} // verus!
