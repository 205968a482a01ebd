use vstd::prelude::*;

verus! {

/// Failures of the study endpoints.
#[derive(Clone, Copy, Debug, PartialEq, Eq, Structural)]
pub enum StudyError {
    /// No study has the given id.
    NotFound { study_id: i64 },
}

} // verus!
