//! The kinds of resources, as types. A kind holds nothing; it says what an
//! [`Id`](super::id::Id) identifies and supplies the prefix of such IDs.

use vstd::prelude::*;
use super::id::Resource;

verus! {

/// A WhizzML script.
#[derive(Debug, Clone, Copy)]
pub struct Script;

/// A WhizzML library.
#[derive(Debug, Clone, Copy)]
pub struct Library;

/// A data source.
#[derive(Debug, Clone, Copy)]
pub struct Source;

/// An execution of a WhizzML script.
#[derive(Debug, Clone, Copy)]
pub struct Execution;

/// An ensemble of multiple predictive models.
#[derive(Debug, Clone, Copy)]
pub struct Ensemble;

/// An evaluation of a model.
#[derive(Debug, Clone, Copy)]
pub struct Evaluation;

impl Resource for Script {
    open spec fn spec_id_prefix() -> Seq<char> {
        "script/"@
    }

    fn id_prefix() -> (r: &'static str) {
        "script/"
    }
}

impl Resource for Library {
    open spec fn spec_id_prefix() -> Seq<char> {
        "library/"@
    }

    fn id_prefix() -> (r: &'static str) {
        "library/"
    }
}

impl Resource for Source {
    open spec fn spec_id_prefix() -> Seq<char> {
        "source/"@
    }

    fn id_prefix() -> (r: &'static str) {
        "source/"
    }
}

impl Resource for Execution {
    open spec fn spec_id_prefix() -> Seq<char> {
        "execution/"@
    }

    fn id_prefix() -> (r: &'static str) {
        "execution/"
    }
}

impl Resource for Ensemble {
    open spec fn spec_id_prefix() -> Seq<char> {
        "ensemble/"@
    }

    fn id_prefix() -> (r: &'static str) {
        "ensemble/"
    }
}

impl Resource for Evaluation {
    open spec fn spec_id_prefix() -> Seq<char> {
        "evaluation/"@
    }

    fn id_prefix() -> (r: &'static str) {
        "evaluation/"
    }
}

} // verus!
