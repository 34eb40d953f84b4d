//! An execution of a WhizzML script.

use vstd::prelude::*;
use crate::text::{has_prefix, same_text, starts_with};
use super::id::{Id, Resource};
use super::kind;
use super::status::GenericResourceStatus;
use super::kind::{Library, Script};
use super::ResourceCommon;

verus! {

/// An execution of a WhizzML script.
#[derive(Debug, Clone)]
pub struct Execution {
    /// Common resource information.
    pub common: ResourceCommon,
    /// The ID of this resource.
    pub resource: Id<kind::Execution>,
    /// The current status of this execution.
    pub status: GenericResourceStatus,
    /// Further information about this execution.
    pub execution: Data,
}

/// A named output of a script.
#[derive(Debug, Clone)]
pub struct Output {
    /// The name of the output.
    pub name: String,
    /// The value, as JSON text, once the script has produced it.
    pub value: Option<String>,
    /// The type that the script declares for the value, if any.
    pub declared_type: Option<String>,
}

/// Data about a script execution.
#[derive(Debug, Clone)]
pub struct Data {
    /// Outputs from this script.
    pub outputs: Vec<Output>,
    /// The value returned at the end of the script, as JSON text.
    pub result: Option<String>,
    /// Source files used as inputs to this execution.
    pub sources: Vec<Source>,
}

/// An output that was asked for is not there.
#[derive(Debug, Clone, Copy, PartialEq, Eq, Structural)]
pub enum OutputError {
    /// The execution has no output of that name.
    NotFound,
}

/// `i` is the position of the first output called `name`.
pub open spec fn is_first_output(outputs: Seq<Output>, name: Seq<char>, i: int) -> bool {
    &&& 0 <= i < outputs.len()
    &&& outputs[i].name@ == name
    &&& forall|j: int| 0 <= j < i ==> outputs[j].name@ != name
}

/// Some output is called `name`.
pub open spec fn has_output(outputs: Seq<Output>, name: Seq<char>) -> bool {
    exists|i: int| 0 <= i < outputs.len() && outputs[i].name@ == name
}

impl Data {
    /// The position of the first output called `name`.
    pub fn position(&self, name: &str) -> (r: Option<usize>)
        ensures
            match r {
                Some(i) => is_first_output(self.outputs@, name@, i as int),
                None => !has_output(self.outputs@, name@),
            },
    {
        let mut i: usize = 0;
        while i < self.outputs.len()
            invariant
                i <= self.outputs.len(),
                forall|j: int| 0 <= j < i ==> self.outputs@[j].name@ != name@,
            decreases self.outputs.len() - i,
        {
            if same_text(self.outputs[i].name.as_str(), name) {
                return Some(i);
            }
            i = i + 1;
        }
        None
    }

    /// Get a named output of this execution: the first one of that name,
    /// or `NotFound` if there is none.
    pub fn get(&self, name: &str) -> (r: Result<&Output, OutputError>)
        ensures
            match r {
                Ok(output) => exists|i: int|
                    is_first_output(self.outputs@, name@, i) && *output == self.outputs@[i],
                Err(e) => e == OutputError::NotFound && !has_output(self.outputs@, name@),
            },
    {
        match self.position(name) {
            Some(i) => {
                assert(is_first_output(self.outputs@, name@, i as int));
                Ok(&self.outputs[i])
            },
            None => Err(OutputError::NotFound),
        }
    }
}

/// Either a script or library ID.
#[derive(Debug, Clone)]
pub enum SourceId {
    /// A library ID.
    Library(Id<Library>),
    /// A script ID.
    Script(Id<Script>),
}

impl View for SourceId {
    type V = Seq<char>;

    open spec fn view(&self) -> Seq<char> {
        match self {
            SourceId::Library(id) => id@,
            SourceId::Script(id) => id@,
        }
    }
}

/// Why a source could not be decoded.
#[derive(Debug, Clone, Copy, PartialEq, Eq, Structural)]
pub enum SourceError {
    /// The text is neither a script ID nor a library ID.
    ExpectedScriptOrLibrary,
    /// The list is empty.
    NoId,
    /// The list ends after the ID.
    NoDescription,
}

impl SourceId {
    /// Decode an ID: a library where the text begins with `library/`, a
    /// script where it begins with `script/`, and an error otherwise.
    pub fn parse(value: &str) -> (r: Result<SourceId, SourceError>)
        ensures
            match r {
                Ok(id) => id@ == value@ && (id is Library <==> has_prefix(value@, "library/"@))
                    && (id is Script <==> !has_prefix(value@, "library/"@) && has_prefix(
                    value@,
                    "script/"@,
                )),
                Err(e) => e == SourceError::ExpectedScriptOrLibrary && !has_prefix(
                    value@,
                    "library/"@,
                ) && !has_prefix(value@, "script/"@),
            },
    {
        if starts_with(value, Library::id_prefix()) {
            match Id::<Library>::from_str(value) {
                Ok(id) => Ok(SourceId::Library(id)),
                Err(_) => Err(SourceError::ExpectedScriptOrLibrary),
            }
        } else if starts_with(value, Script::id_prefix()) {
            match Id::<Script>::from_str(value) {
                Ok(id) => Ok(SourceId::Script(id)),
                Err(_) => Err(SourceError::ExpectedScriptOrLibrary),
            }
        } else {
            Err(SourceError::ExpectedScriptOrLibrary)
        }
    }

    /// The ID as text.
    pub fn as_str(&self) -> (r: &str)
        ensures
            r@ == self@,
    {
        match self {
            SourceId::Library(id) => id.as_str(),
            SourceId::Script(id) => id.as_str(),
        }
    }
}

/// Information about a source code resource.
#[derive(Debug, Clone)]
pub struct Source {
    /// The script or library associated with this source.
    pub id: SourceId,
    /// The description associated with this source.
    pub description: String,
}

impl Source {
    /// Decode a source from the list that stands for it on the wire: the
    /// ID first, then the description; what follows is not read. The ID is
    /// looked at before the description is missed.
    pub fn from_elements(elements: &Vec<String>) -> (r: Result<Source, SourceError>)
        ensures
            match r {
                Ok(source) => elements@.len() >= 2 && source.id@ == elements@[0]@
                    && source.description@ == elements@[1]@ && (source.id is Library
                    <==> has_prefix(elements@[0]@, "library/"@)),
                Err(SourceError::NoId) => elements@.len() == 0,
                Err(SourceError::ExpectedScriptOrLibrary) => elements@.len() >= 1 && !has_prefix(
                    elements@[0]@,
                    "library/"@,
                ) && !has_prefix(elements@[0]@, "script/"@),
                Err(SourceError::NoDescription) => elements@.len() == 1 && (has_prefix(
                    elements@[0]@,
                    "library/"@,
                ) || has_prefix(elements@[0]@, "script/"@)),
            },
    {
        if elements.len() == 0 {
            return Err(SourceError::NoId);
        }
        let id = match SourceId::parse(elements[0].as_str()) {
            Ok(id) => id,
            Err(e) => {
                return Err(e);
            },
        };
        if elements.len() == 1 {
            return Err(SourceError::NoDescription);
        }
        Ok(Source { id, description: elements[1].clone() })
    }

    /// The list that stands for this source on the wire: the ID, then the
    /// description.
    pub fn to_elements(&self) -> (r: Vec<String>)
        ensures
            r@.len() == 2,
            r@[0]@ == self.id@,
            r@[1]@ == self.description@,
    {
        let mut out: Vec<String> = Vec::new();
        out.push(self.id.as_str().to_owned());
        out.push(self.description.clone());
        out
    }
}

} // verus!
