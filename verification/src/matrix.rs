//! The dimensions of the answer field of a matrix question part.
use crate::jme::{same_size, ReverseVariableValued};
use crate::noneable::Noneable;
use vstd::prelude::*;

verus! {

/// The number of rows and of columns of the answer field.
#[derive(Debug, PartialEq)]
pub struct QuestionPartMatrixDimensions {
    /// The number of rows in the student’s answer field.
    pub rows: QuestionPartMatrixDimension,
    /// The number of columns in the student’s answer field.
    pub columns: QuestionPartMatrixDimension,
}

/// One dimension of the answer field.
#[derive(Debug, PartialEq)]
pub enum QuestionPartMatrixDimension {
    /// The dimension is fixed.
    Fixed(ReverseVariableValued<usize>),
    /// The student can change the dimension.
    Resizable(Box<QuestionPartMatrixRangedDimension>),
}

/// A dimension that the student can change.
#[derive(Debug, PartialEq)]
pub struct QuestionPartMatrixRangedDimension {
    /// The default size
    pub default: ReverseVariableValued<usize>,
    /// The minimal size
    pub min: ReverseVariableValued<usize>,
    /// The maximal size; none means no limit
    pub max: Noneable<ReverseVariableValued<usize>>,
}

/// The size that the answer field starts with.
pub open spec fn dim_default(d: QuestionPartMatrixDimension) -> ReverseVariableValued<usize> {
    match d {
        QuestionPartMatrixDimension::Fixed(f) => f,
        QuestionPartMatrixDimension::Resizable(r) => r.default,
    }
}

/// The smallest size.
pub open spec fn dim_min(d: QuestionPartMatrixDimension) -> ReverseVariableValued<usize> {
    match d {
        QuestionPartMatrixDimension::Fixed(f) => f,
        QuestionPartMatrixDimension::Resizable(r) => r.min,
    }
}

/// The largest size, `0` when there is no limit.
pub open spec fn dim_max(d: QuestionPartMatrixDimension) -> ReverseVariableValued<usize> {
    match d {
        QuestionPartMatrixDimension::Fixed(f) => f,
        QuestionPartMatrixDimension::Resizable(r) => match r.max {
            Noneable::NoneValue => ReverseVariableValued::Value(0),
            Noneable::NotNone(f) => f,
        },
    }
}

/// Whether the student can change the dimension: its default differs from its minimum or its
/// maximum.
pub open spec fn dim_resizable(d: QuestionPartMatrixDimension) -> bool {
    !same_size(dim_default(d), dim_min(d)) || !same_size(dim_default(d), dim_max(d))
}

/// The dimension with the given range: fixed when the three sizes are the same, else resizable,
/// with a maximum of `0` standing for no limit.
pub open spec fn dimension_of_range(
    min: ReverseVariableValued<usize>,
    default: ReverseVariableValued<usize>,
    max: ReverseVariableValued<usize>,
) -> QuestionPartMatrixDimension {
    if same_size(min, default) && same_size(default, max) {
        QuestionPartMatrixDimension::Fixed(min)
    } else {
        QuestionPartMatrixDimension::Resizable(
            Box::new(
                QuestionPartMatrixRangedDimension {
                    default,
                    min,
                    max: if max == ReverseVariableValued::<usize>::Value(0) {
                        Noneable::NoneValue
                    } else {
                        Noneable::NotNone(max)
                    },
                },
            ),
        )
    }
}

impl QuestionPartMatrixDimensions {
    /// Whether the student can change the rows or the columns.
    pub fn is_resizable(&self) -> (r: bool)
        ensures
            r == (dim_resizable(self.rows) || dim_resizable(self.columns)),
    {
        self.rows.is_resizable() || self.columns.is_resizable()
    }
}

impl QuestionPartMatrixDimension {
    /// The size that the answer field starts with.
    pub fn default(&self) -> (r: ReverseVariableValued<usize>)
        ensures
            r == dim_default(*self),
    {
        match self {
            QuestionPartMatrixDimension::Fixed(f) => f.clone(),
            QuestionPartMatrixDimension::Resizable(r) => r.default.clone(),
        }
    }

    /// The smallest size.
    pub fn min(&self) -> (r: ReverseVariableValued<usize>)
        ensures
            r == dim_min(*self),
    {
        match self {
            QuestionPartMatrixDimension::Fixed(f) => f.clone(),
            QuestionPartMatrixDimension::Resizable(r) => r.min.clone(),
        }
    }

    /// The largest size, `0` when there is no limit.
    pub fn max(&self) -> (r: ReverseVariableValued<usize>)
        ensures
            r == dim_max(*self),
    {
        match self {
            QuestionPartMatrixDimension::Fixed(f) => f.clone(),
            QuestionPartMatrixDimension::Resizable(r) => match &r.max {
                Noneable::NoneValue => ReverseVariableValued::Value(0),
                Noneable::NotNone(f) => f.clone(),
            },
        }
    }

    /// Whether the student can change this dimension.
    pub fn is_resizable(&self) -> (r: bool)
        ensures
            r == dim_resizable(*self),
    {
        let d = self.default();
        !d.same_as(&self.min()) || !d.same_as(&self.max())
    }

    /// The dimension with the given smallest, starting and largest size; a largest size of `0`
    /// means no limit.
    pub fn from_range(
        min: ReverseVariableValued<usize>,
        default: ReverseVariableValued<usize>,
        max: ReverseVariableValued<usize>,
    ) -> (r: Self)
        ensures
            r == dimension_of_range(min, default, max),
    {
        if min.same_as(&default) && default.same_as(&max) {
            QuestionPartMatrixDimension::Fixed(min)
        } else {
            let no_limit = match &max {
                ReverseVariableValued::Value(v) => *v == 0,
                ReverseVariableValued::Variable(_) => false,
            };
            QuestionPartMatrixDimension::Resizable(
                Box::new(
                    QuestionPartMatrixRangedDimension {
                        default,
                        min,
                        max: if no_limit {
                            Noneable::NoneValue
                        } else {
                            Noneable::NotNone(max)
                        },
                    },
                ),
            )
        }
    }
}

/// A dimension made from a range gives that range back: its minimum, default and maximum are the
/// sizes it was made from, and it is resizable exactly when the three are not all the same.
pub proof fn lemma_from_range_round_trip(
    min: ReverseVariableValued<usize>,
    default: ReverseVariableValued<usize>,
    max: ReverseVariableValued<usize>,
)
    ensures
        same_size(dim_min(dimension_of_range(min, default, max)), min),
        same_size(dim_default(dimension_of_range(min, default, max)), default),
        same_size(dim_max(dimension_of_range(min, default, max)), max),
        dim_resizable(dimension_of_range(min, default, max)) <==> !(same_size(min, default)
            && same_size(default, max)),
{
}

} // verus!
