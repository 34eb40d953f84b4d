//! What to run: the shared configuration, and the job built from it for
//! each resource.

use vstd::prelude::*;
use super::execution_input::{ExecutionInput, ExecutionInputView, InputValue, InputValueView};

verus! {

/// The configuration shared by all jobs of one run.
#[derive(Debug, Clone)]
pub struct Options {
    /// The script to run.
    pub script: String,
    /// The name to give to each job, if any.
    pub name: Option<String>,
    /// The resources to process, if they were given as arguments.
    pub resources: Vec<String>,
    /// The input name under which the script receives the resource.
    pub resource_input_name: String,
    /// Further inputs, the same for every job.
    pub inputs: Vec<ExecutionInput>,
    /// The names of the outputs to collect.
    pub outputs: Vec<String>,
    /// How many jobs may run at a time.
    pub max_tasks: usize,
    /// Tags to attach to each job.
    pub tags: Vec<String>,
}

/// The request that creates one job.
#[derive(Debug, Clone)]
pub struct ExecutionArgs {
    /// The script to run.
    pub script: Option<String>,
    /// The name of the job.
    pub name: Option<String>,
    /// The inputs, in the order in which they are sent.
    pub inputs: Vec<ExecutionInput>,
    /// The names of the outputs to collect.
    pub outputs: Vec<String>,
    /// User-defined tags.
    pub tags: Vec<String>,
}

/// Where the resources to process come from.
#[derive(Debug, Clone, Copy, PartialEq, Eq, Structural)]
pub enum InputSource {
    /// They were given as arguments.
    Arguments,
    /// They are read from standard input, one per line.
    StandardInput,
}

/// The default name of the input that carries the resource.
pub fn default_resource_input_name() -> (r: &'static str)
    ensures
        r@ == "resource"@,
{
    "resource"
}

/// The default number of jobs that run at a time.
pub fn default_max_tasks() -> (r: usize)
    ensures
        r == 2,
{
    2
}

/// A copy of a list of strings.
fn copy_strings(list: &Vec<String>) -> (r: Vec<String>)
    ensures
        r@ == list@,
{
    let mut out: Vec<String> = Vec::new();
    let mut i: usize = 0;
    while i < list.len()
        invariant
            i <= list.len(),
            out@ == list@.take(i as int),
        decreases list.len() - i,
    {
        out.push(list[i].clone());
        assert(list@.take(i + 1) == list@.take(i as int).push(list@[i as int]));
        i = i + 1;
    }
    assert(list@.take(list.len() as int) == list@);
    out
}

/// A copy of an input: same name, same value.
fn copy_input(input: &ExecutionInput) -> (r: ExecutionInput)
    ensures
        r == *input,
{
    let value = match &input.value {
        InputValue::Json(text) => InputValue::Json(text.clone()),
        InputValue::Literal(text) => InputValue::Literal(text.clone()),
    };
    ExecutionInput { name: input.name.clone(), value }
}

impl Options {
    /// Options with the defaults: the resource is passed as `resource`,
    /// two jobs run at a time, and nothing else is set.
    pub fn new(script: String) -> (r: Options)
        ensures
            r.script == script,
            r.name is None,
            r.resources@.len() == 0,
            r.resource_input_name@ == "resource"@,
            r.inputs@.len() == 0,
            r.outputs@.len() == 0,
            r.max_tasks == 2,
            r.tags@.len() == 0,
    {
        Options {
            script,
            name: None,
            resources: Vec::new(),
            resource_input_name: default_resource_input_name().to_owned(),
            inputs: Vec::new(),
            outputs: Vec::new(),
            max_tasks: default_max_tasks(),
            tags: Vec::new(),
        }
    }

    /// Resources given as arguments take precedence; standard input is
    /// read only when there are none.
    pub fn input_source(&self) -> (r: InputSource)
        ensures
            r == if self.resources@.len() > 0 {
                InputSource::Arguments
            } else {
                InputSource::StandardInput
            },
    {
        if self.resources.len() > 0 {
            InputSource::Arguments
        } else {
            InputSource::StandardInput
        }
    }

    /// The inputs of the job for `resource`: first the resource itself, as
    /// a literal string under the configured name, then the shared inputs
    /// in their order.
    pub open spec fn spec_job_inputs(self, resource: Seq<char>) -> Seq<ExecutionInputView> {
        seq![
            ExecutionInputView {
                name: self.resource_input_name@,
                value: InputValueView::Literal(resource),
            },
        ] + self.inputs.deep_view()
    }

    /// Build the request that runs the configured script on `resource`.
    pub fn execution_args(&self, resource: &str) -> (r: ExecutionArgs)
        ensures
            r.script == Some(self.script),
            r.name == self.name,
            r.inputs.deep_view() == self.spec_job_inputs(resource@),
            r.outputs@ == self.outputs@,
            r.tags@ == self.tags@,
    {
        let name = match &self.name {
            Some(name) => Some(name.clone()),
            None => None,
        };
        let mut inputs: Vec<ExecutionInput> = Vec::new();
        inputs.push(
            ExecutionInput {
                name: self.resource_input_name.clone(),
                value: InputValue::Literal(resource.to_owned()),
            },
        );
        let mut i: usize = 0;
        while i < self.inputs.len()
            invariant
                i <= self.inputs.len(),
                inputs@.len() == i + 1,
                inputs@[0].deep_view() == (ExecutionInputView {
                    name: self.resource_input_name@,
                    value: InputValueView::Literal(resource@),
                }),
                forall|j: int| 0 <= j < i ==> inputs@[j + 1] == self.inputs@[j],
            decreases self.inputs.len() - i,
        {
            inputs.push(copy_input(&self.inputs[i]));
            i = i + 1;
        }
        assert(inputs.deep_view() =~= self.spec_job_inputs(resource@));
        ExecutionArgs {
            script: Some(self.script.clone()),
            name,
            inputs,
            outputs: copy_strings(&self.outputs),
            tags: copy_strings(&self.tags),
        }
    }
}

} // verus!
