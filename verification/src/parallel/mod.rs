//! Running one script over many resources, a bounded number at a time.

pub mod execution_input;
pub mod job;
pub mod pipeline;
pub mod workflow;

pub use pipeline::{ItemOutcome, FailureKind, Pipeline, PipelineAction, PipelineEvent, PipelineView, Stage};
pub use execution_input::{ExecutionInput, InputError, InputValue};
pub use job::{ExecutionArgs, InputSource, Options};
pub use workflow::{RemoteError, RemoteFailure, Workflow, WorkflowAction, WorkflowError, WorkflowEvent, WorkflowState};
