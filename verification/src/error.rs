//! Top-level app error definition and conversions from other error types.

use crate::board::{insert_error_text, InsertError};
use vstd::prelude::*;

verus! {

broadcast use vstd::string::group_string_axioms;

/// Top-level errors that may occur during gameplay.
/// All other error types should convert into this for handling.
#[derive(Clone, Copy, Debug, PartialEq, Eq, Structural)]
pub enum GameError {
    AddPiece(InsertError),
}

impl GameError {
    /// The display text of this error.
    pub fn message(&self) -> (r: String)
        ensures
            ({
                let GameError::AddPiece(e) = *self;
                r@ == "Error placing new piece: "@ + insert_error_text(e)
            }),
    {
        match self {
            GameError::AddPiece(insert_error) => {
                let mut text = "Error placing new piece: ".to_string();
                text.append(insert_error.message().as_str());
                text
            },
        }
    }
}

impl From<InsertError> for GameError {
    fn from(value: InsertError) -> (r: Self) {
        Self::AddPiece(value)
    }
}

impl vstd::std_specs::convert::FromSpecImpl<InsertError> for GameError {
    open spec fn obeys_from_spec() -> bool {
        true
    }

    open spec fn from_spec(value: InsertError) -> Self {
        GameError::AddPiece(value)
    }
}

} // verus!
