//! Resource types of the BigML API, and what is common to all of them.

pub mod id;
pub mod kind;
pub mod evaluation;
pub mod execution;
pub mod source;
pub mod status;

use vstd::prelude::*;

pub use status::{GenericResourceStatus, ResourceStatusCode, StatusCategory, StatusCodeError};
pub use id::{Id, IdError, Resource, ResourceId};
pub use execution::Execution;
pub use source::Source;

verus! {

/// Fields which appear on every resource type.
#[derive(Debug, Clone)]
pub struct ResourceCommon {
    /// Used to classify by industry or category. 0 is "Miscellaneous".
    pub category: i64,
    /// An HTTP status code, typically either 201 or 200.
    pub code: u16,
    /// The time this resource was created, in milliseconds since the epoch.
    pub created: i64,
    /// Text describing this resource. May contain limited Markdown.
    pub description: String,
    /// The name of this resource.
    pub name: String,
    /// Has this been shared using a private link?
    pub shared: bool,
    /// Was this created using a subscription plan?
    pub subscription: bool,
    /// User-defined tags.
    pub tags: Vec<String>,
    /// The last time this was updated, in milliseconds since the epoch.
    pub updated: i64,
}

} // verus!
