//! Why a builder could not build its request.

use vstd::prelude::*;
use vstd::string::StringExecFns;

verus! {

/// A request could not be built.
#[derive(Clone, Copy, Debug, PartialEq, Eq)]
pub enum BuilderError {
    /// A required field has not been set; holds the name of the field.
    UninitializedField(&'static str),
}

impl BuilderError {
    /// What the error says, as a sentence.
    pub open spec fn text(self) -> Seq<char> {
        match self {
            BuilderError::UninitializedField(field) => "`"@ + field@ + "` must be initialized"@,
        }
    }

    /// What the error says, as a sentence.
    pub fn message(&self) -> (message: String)
        ensures
            message@ == self.text(),
    {
        match self {
            BuilderError::UninitializedField(field) => {
                let mut message = String::from_str("`");
                message.append(field);
                message.append("` must be initialized");
                message
            },
        }
    }
}

} // verus!
