//! Lifecycle states of a remote resource.

use vstd::prelude::*;

verus! {

/// A BigML status code.
#[derive(Debug, Clone, Copy, PartialEq, Eq, Structural)]
pub enum ResourceStatusCode {
    /// BigML is waiting on another resource before processing this one.
    Waiting,
    /// The processing job has been added to the queue.
    Queued,
    /// Actual processing has started.
    Started,
    /// Part of the job has been performed.
    InProgress,
    /// Summary statistics for a dataset are available.
    Summarized,
    /// The resource is ready.
    Finished,
    /// Something went wrong processing the task.
    Faulty,
    /// Something has gone wrong in BigML, perhaps an outage.
    Unknown,
}

/// What a status code means to somebody who waits for the resource.
#[derive(Debug, Clone, Copy, PartialEq, Eq, Structural)]
pub enum StatusCategory {
    /// The platform is still working; ask again later.
    Working,
    /// The resource reached its successful terminal state.
    Ready,
    /// The resource reached its failed terminal state.
    Error,
    /// The platform lost track of the resource; terminal as well.
    Unknown,
}

/// A number on the wire that is not a status code.
#[derive(Debug, Clone, Copy, PartialEq, Eq, Structural)]
pub struct StatusCodeError {
    /// The number that was received.
    pub code: i64,
}

impl ResourceStatusCode {
    /// The five states in which the platform is still busy.
    pub open spec fn spec_is_working(self) -> bool {
        self is Waiting || self is Queued || self is Started || self is InProgress
            || self is Summarized
    }

    /// Only `Finished` counts as ready.
    pub open spec fn spec_is_ready(self) -> bool {
        self is Finished
    }

    /// `Faulty` and `Unknown` are the two failed terminal states.
    pub open spec fn spec_is_err(self) -> bool {
        self is Faulty || self is Unknown
    }

    /// A state from which the resource never moves again.
    pub open spec fn is_terminal(self) -> bool {
        !self.spec_is_working()
    }

    /// The category of each state.
    pub open spec fn spec_category(self) -> StatusCategory {
        match self {
            ResourceStatusCode::Finished => StatusCategory::Ready,
            ResourceStatusCode::Faulty => StatusCategory::Error,
            ResourceStatusCode::Unknown => StatusCategory::Unknown,
            _ => StatusCategory::Working,
        }
    }

    /// The number that stands for each state on the wire.
    pub open spec fn spec_code(self) -> int {
        match self {
            ResourceStatusCode::Waiting => 0,
            ResourceStatusCode::Queued => 1,
            ResourceStatusCode::Started => 2,
            ResourceStatusCode::InProgress => 3,
            ResourceStatusCode::Summarized => 4,
            ResourceStatusCode::Finished => 5,
            ResourceStatusCode::Faulty => -1,
            ResourceStatusCode::Unknown => -2,
        }
    }

    /// The state that a number on the wire stands for, if any.
    pub open spec fn spec_from_code(code: int) -> Option<ResourceStatusCode> {
        if code == 0 {
            Some(ResourceStatusCode::Waiting)
        } else if code == 1 {
            Some(ResourceStatusCode::Queued)
        } else if code == 2 {
            Some(ResourceStatusCode::Started)
        } else if code == 3 {
            Some(ResourceStatusCode::InProgress)
        } else if code == 4 {
            Some(ResourceStatusCode::Summarized)
        } else if code == 5 {
            Some(ResourceStatusCode::Finished)
        } else if code == -1 {
            Some(ResourceStatusCode::Faulty)
        } else if code == -2 {
            Some(ResourceStatusCode::Unknown)
        } else {
            None
        }
    }

    /// Is BigML still working on ingesting and processing this resource?
    #[verifier::when_used_as_spec(spec_is_working)]
    pub fn is_working(self) -> (r: bool)
        ensures
            r == self.spec_is_working(),
    {
        match self {
            ResourceStatusCode::Waiting
            | ResourceStatusCode::Queued
            | ResourceStatusCode::Started
            | ResourceStatusCode::InProgress
            | ResourceStatusCode::Summarized => true,
            _ => false,
        }
    }

    /// Has BigML successfully finished processing this resource?
    #[verifier::when_used_as_spec(spec_is_ready)]
    pub fn is_ready(self) -> (r: bool)
        ensures
            r == self.spec_is_ready(),
    {
        self == ResourceStatusCode::Finished
    }

    /// Did something go wrong while processing this resource?
    #[verifier::when_used_as_spec(spec_is_err)]
    pub fn is_err(self) -> (r: bool)
        ensures
            r == self.spec_is_err(),
    {
        self == ResourceStatusCode::Faulty || self == ResourceStatusCode::Unknown
    }

    /// Sort this state into working, ready, error or unknown.
    #[verifier::when_used_as_spec(spec_category)]
    pub fn category(self) -> (r: StatusCategory)
        ensures
            r == self.spec_category(),
    {
        match self {
            ResourceStatusCode::Finished => StatusCategory::Ready,
            ResourceStatusCode::Faulty => StatusCategory::Error,
            ResourceStatusCode::Unknown => StatusCategory::Unknown,
            _ => StatusCategory::Working,
        }
    }

    /// The number sent on the wire for this state.
    pub fn code(self) -> (r: i64)
        ensures
            r == self.spec_code(),
    {
        match self {
            ResourceStatusCode::Waiting => 0,
            ResourceStatusCode::Queued => 1,
            ResourceStatusCode::Started => 2,
            ResourceStatusCode::InProgress => 3,
            ResourceStatusCode::Summarized => 4,
            ResourceStatusCode::Finished => 5,
            ResourceStatusCode::Faulty => -1,
            ResourceStatusCode::Unknown => -2,
        }
    }

    /// Decode a number received on the wire. Any number outside `-2..=5`
    /// is refused, and the error carries it.
    pub fn from_code(code: i64) -> (r: Result<ResourceStatusCode, StatusCodeError>)
        ensures
            match r {
                Ok(status) => Self::spec_from_code(code as int) == Some(status),
                Err(e) => Self::spec_from_code(code as int) is None && e.code == code,
            },
    {
        match code {
            0 => Ok(ResourceStatusCode::Waiting),
            1 => Ok(ResourceStatusCode::Queued),
            2 => Ok(ResourceStatusCode::Started),
            3 => Ok(ResourceStatusCode::InProgress),
            4 => Ok(ResourceStatusCode::Summarized),
            5 => Ok(ResourceStatusCode::Finished),
            -1 => Ok(ResourceStatusCode::Faulty),
            -2 => Ok(ResourceStatusCode::Unknown),
            _ => Err(StatusCodeError { code }),
        }
    }
}

/// Classify a number received on the wire without decoding it first: a
/// number that is no status code at all counts as `Unknown`.
pub open spec fn spec_classify(code: int) -> StatusCategory {
    match ResourceStatusCode::spec_from_code(code) {
        Some(status) => status.spec_category(),
        None => StatusCategory::Unknown,
    }
}

/// Classify a number received on the wire.
pub fn classify(code: i64) -> (r: StatusCategory)
    ensures
        r == spec_classify(code as int),
{
    match ResourceStatusCode::from_code(code) {
        Ok(status) => status.category(),
        Err(_) => StatusCategory::Unknown,
    }
}

/// Status of a generic resource.
#[derive(Debug, Clone)]
pub struct GenericResourceStatus {
    /// Status code.
    pub code: ResourceStatusCode,
    /// Human-readable status message.
    pub message: String,
    /// Number of milliseconds which were needed to create this resource.
    pub elapsed: Option<u64>,
}

impl GenericResourceStatus {
    /// Status code.
    pub fn code(&self) -> (r: ResourceStatusCode)
        ensures
            r == self.code,
    {
        self.code
    }

    /// Human-readable status message.
    pub fn message(&self) -> (r: &str)
        ensures
            r@ == self.message@,
    {
        self.message.as_str()
    }

    /// Number of milliseconds which were needed to create this resource.
    pub fn elapsed(&self) -> (r: Option<u64>)
        ensures
            r == self.elapsed,
    {
        self.elapsed
    }
}

/// Every state is working, ready or failed, and never two of these at once.
pub proof fn status_predicates_partition(status: ResourceStatusCode)
    ensures
        status.spec_is_working() || status.spec_is_ready() || status.spec_is_err(),
        !(status.spec_is_working() && status.spec_is_ready()),
        !(status.spec_is_working() && status.spec_is_err()),
        !(status.spec_is_ready() && status.spec_is_err()),
        status.spec_is_working() <==> status.spec_category() == StatusCategory::Working,
        status.spec_is_ready() <==> status.spec_category() == StatusCategory::Ready,
        status.spec_is_err() <==> (status.spec_category() == StatusCategory::Error
            || status.spec_category() == StatusCategory::Unknown),
{
}

/// Encoding a state and decoding the number gives the state back, and no
/// two states share a number.
pub proof fn status_code_round_trip(status: ResourceStatusCode)
    ensures
        ResourceStatusCode::spec_from_code(status.spec_code()) == Some(status),
        -2 <= status.spec_code() <= 5,
{
}

/// Classification looks at the code alone: two statuses that carry the same
/// code fall into the same category, whatever their message or timing, and
/// equal numbers on the wire are classified alike.
pub proof fn classification_is_stable(
    a: GenericResourceStatus,
    b: GenericResourceStatus,
    x: i64,
    y: i64,
)
    requires
        a.code == b.code,
        x == y,
    ensures
        a.code.spec_category() == b.code.spec_category(),
        a.code.spec_is_working() == b.code.spec_is_working(),
        a.code.spec_is_ready() == b.code.spec_is_ready(),
        a.code.spec_is_err() == b.code.spec_is_err(),
        spec_classify(x as int) == spec_classify(y as int),
{
}

} // verus!
