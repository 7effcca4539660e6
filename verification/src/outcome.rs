//! How the handling of an event ends.

use vstd::prelude::*;

verus! {

/// A good end.
#[derive(Debug, Clone, Copy, PartialEq, Eq, Structural)]
pub enum Outcome {
    /// A test of the connection was answered, or the rule's comment and all
    /// its tasks were created.
    Success,
    /// No rule names the merge: nothing was written.
    NoWorkflow,
    /// The event is none that the bot acts on.
    Ignored,
}

impl Outcome {
    /// The text of [`Outcome::message`].
    pub open spec fn text(self) -> Seq<char> {
        match self {
            Outcome::Success => "Success"@,
            Outcome::NoWorkflow => "No workflow"@,
            Outcome::Ignored => "Ignoring unexpected payload"@,
        }
    }

    /// The short confirmation that the sender of the event gets.
    pub fn message(&self) -> (r: &'static str)
        ensures
            r@ == self.text(),
    {
        match self {
            Outcome::Success => "Success",
            Outcome::NoWorkflow => "No workflow",
            Outcome::Ignored => "Ignoring unexpected payload",
        }
    }
}

/// A bad end, with the detail of what went wrong.
#[derive(Debug)]
pub enum Failure {
    /// The event could not be decoded.
    Decode(String),
    /// The event does not say where the hosting service is.
    Addressing(String),
    /// The rules could not be read or are malformed.
    Config(String),
    /// The hosting service did not do what was asked of it.
    Remote(String),
}

/// What a [`Failure`] says.
pub ghost enum FailureModel {
    Decode(Seq<char>),
    Addressing(Seq<char>),
    Config(Seq<char>),
    Remote(Seq<char>),
}

impl FailureModel {
    /// The detail that the failure carries.
    pub open spec fn detail(self) -> Seq<char> {
        match self {
            FailureModel::Decode(detail) => detail,
            FailureModel::Addressing(detail) => detail,
            FailureModel::Config(detail) => detail,
            FailureModel::Remote(detail) => detail,
        }
    }
}

impl View for Failure {
    type V = FailureModel;

    open spec fn view(&self) -> FailureModel {
        match *self {
            Failure::Decode(detail) => FailureModel::Decode(detail@),
            Failure::Addressing(detail) => FailureModel::Addressing(detail@),
            Failure::Config(detail) => FailureModel::Config(detail@),
            Failure::Remote(detail) => FailureModel::Remote(detail@),
        }
    }
}

impl Clone for Failure {
    fn clone(&self) -> (r: Failure)
        ensures
            r == *self,
    {
        match self {
            Failure::Decode(detail) => Failure::Decode(detail.clone()),
            Failure::Addressing(detail) => Failure::Addressing(detail.clone()),
            Failure::Config(detail) => Failure::Config(detail.clone()),
            Failure::Remote(detail) => Failure::Remote(detail.clone()),
        }
    }
}

/// What the end of a workflow says.
pub open spec fn end_model(end: Result<Outcome, Failure>) -> Result<Outcome, FailureModel> {
    match end {
        Ok(outcome) => Ok(outcome),
        Err(failure) => Err(failure@),
    }
}

impl Failure {
    /// The detail of the failure, as the sender of the event gets it.
    pub fn message(&self) -> (r: &str)
        ensures
            r@ == self@.detail(),
    {
        match self {
            Failure::Decode(detail) => detail.as_str(),
            Failure::Addressing(detail) => detail.as_str(),
            Failure::Config(detail) => detail.as_str(),
            Failure::Remote(detail) => detail.as_str(),
        }
    }
}

} // verus!
