//! What can go wrong when a request is finished.

use vstd::prelude::*;

verus! {

/// Why a builder could not yield a request.
#[derive(Debug, Clone, Copy, PartialEq, Eq)]
pub enum BuildError {
    /// A required field was never set; the payload is its wire name.
    MissingField(&'static str),
    /// The message list was set, but holds no message.
    EmptyMessages,
}

/// The mathematical model of a [`BuildError`].
pub enum BuildErrorModel {
    MissingField(Seq<char>),
    EmptyMessages,
}

impl View for BuildError {
    type V = BuildErrorModel;

    open spec fn view(&self) -> BuildErrorModel {
        match *self {
            BuildError::MissingField(name) => BuildErrorModel::MissingField(name@),
            BuildError::EmptyMessages => BuildErrorModel::EmptyMessages,
        }
    }
}

impl BuildError {
    /// The wire name of the field that the error is about.
    pub fn field(&self) -> (name: &'static str)
        ensures
            name@ == match self@ {
                BuildErrorModel::MissingField(field) => field,
                BuildErrorModel::EmptyMessages => "messages"@,
            },
    {
        match *self {
            BuildError::MissingField(name) => name,
            BuildError::EmptyMessages => "messages",
        }
    }
}

} // verus!
