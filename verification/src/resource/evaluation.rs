//! Evaluations of models.

use vstd::prelude::*;

verus! {

/// Classification models are used to predict category properties.
#[derive(Debug, Clone, Copy, PartialEq, Eq, Structural)]
pub struct ClassificationModel;

} // verus!
