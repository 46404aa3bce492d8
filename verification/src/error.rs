//! The failures that an operation on the todo list can report.

use vstd::prelude::*;

verus! {

/// Why an operation was refused. Every failure is final: nothing is retried,
/// and a refused operation changes no record.
#[derive(Clone, Copy, Debug, PartialEq, Eq, Structural)]
pub enum TodoError {
    /// The caller is not the owner stored in the record.
    Unauthorized,
    /// A precondition that has no kind of its own does not hold.
    NotAllowed,
    /// A counter would leave the range of its type.
    MathOverflow,
    /// The todo is already completed.
    AlreadyMarked,
}

impl TodoError {
    /// The text that accompanies the failure.
    pub open spec fn message_text(&self) -> Seq<char> {
        match self {
            TodoError::Unauthorized => "You are not authorized to perform this action."@,
            TodoError::NotAllowed => "Not allowed."@,
            TodoError::MathOverflow => "Math operation overflow."@,
            TodoError::AlreadyMarked => "Todo is already marked."@,
        }
    }

    /// The text that accompanies the failure.
    pub fn message(&self) -> (r: String)
        ensures
            r@ == self.message_text(),
    {
        match self {
            TodoError::Unauthorized => "You are not authorized to perform this action.".to_owned(),
            TodoError::NotAllowed => "Not allowed.".to_owned(),
            TodoError::MathOverflow => "Math operation overflow.".to_owned(),
            TodoError::AlreadyMarked => "Todo is already marked.".to_owned(),
        }
    }
}

} // verus!
