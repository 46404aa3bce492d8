//! The two kinds of record that the ledger stores for the todo list.

use vstd::prelude::*;
use crate::address::Address;

verus! {

/// The profile of one owner: how many todos were ever created and how many of
/// them still exist.
#[derive(Clone, Copy, Debug, PartialEq, Eq)]
pub struct UserProfile {
    /// The owner; never changes.
    pub authority: Address,
    /// The index that the next todo gets; never decreases.
    pub last_todo: u8,
    /// The number of todos that exist.
    pub todo_count: u8,
}

/// One todo of one owner.
#[derive(Clone, Debug, PartialEq, Eq)]
pub struct TodoAccount {
    /// The owner; equals the owner of the profile it was created under.
    pub authority: Address,
    /// The profile's `last_todo` when the todo was created; part of its address.
    pub idx: u8,
    /// The text, stored as given.
    pub content: String,
    /// Whether the todo is completed; goes from `false` to `true` only.
    pub marked: bool,
}

impl UserProfile {
    /// No more todos exist than were ever created.
    pub open spec fn wf(&self) -> bool {
        self.todo_count <= self.last_todo
    }

    /// The profile of an owner without todos.
    pub open spec fn fresh(authority: Address) -> UserProfile {
        UserProfile { authority, last_todo: 0, todo_count: 0 }
    }

    /// The profile after one more todo was created, unless a counter is at its
    /// maximum.
    pub open spec fn grown(&self) -> Option<UserProfile> {
        if self.last_todo == u8::MAX || self.todo_count == u8::MAX {
            None
        } else {
            Some(
                UserProfile {
                    authority: self.authority,
                    last_todo: (self.last_todo + 1) as u8,
                    todo_count: (self.todo_count + 1) as u8,
                },
            )
        }
    }

    /// The profile after one todo was removed, unless none exists.
    pub open spec fn shrunk(&self) -> Option<UserProfile> {
        if self.todo_count == 0 {
            None
        } else {
            Some(
                UserProfile {
                    authority: self.authority,
                    last_todo: self.last_todo,
                    todo_count: (self.todo_count - 1) as u8,
                },
            )
        }
    }

    /// Creates the profile of an owner without todos.
    pub fn new(authority: Address) -> (r: UserProfile)
        ensures
            r == UserProfile::fresh(authority),
            r.wf(),
    {
        UserProfile { authority, last_todo: 0, todo_count: 0 }
    }

    /// Counts one more todo: both counters go up by one. Fails with
    /// `MathOverflow`, and changes nothing, where either is at its maximum.
    pub fn record_added(&mut self) -> (r: Result<u8, crate::error::TodoError>)
        ensures
            match old(self).grown() {
                Some(p) => r == Ok::<u8, crate::error::TodoError>(old(self).last_todo) && *final(self) == p,
                None => r == Err::<u8, crate::error::TodoError>(crate::error::TodoError::MathOverflow)
                    && *final(self) == *old(self),
            },
            old(self).wf() ==> final(self).wf(),
    {
        let idx: u8 = self.last_todo;
        match (self.last_todo.checked_add(1), self.todo_count.checked_add(1)) {
            (Some(next), Some(count)) => {
                self.last_todo = next;
                self.todo_count = count;
                Ok(idx)
            },
            _ => Err(crate::error::TodoError::MathOverflow),
        }
    }

    /// Counts one todo less: `todo_count` goes down by one and `last_todo`
    /// stays. Fails with `MathOverflow`, and changes nothing, where no todo
    /// exists.
    pub fn record_removed(&mut self) -> (r: Result<(), crate::error::TodoError>)
        ensures
            match old(self).shrunk() {
                Some(p) => r == Ok::<(), crate::error::TodoError>(()) && *final(self) == p,
                None => r == Err::<(), crate::error::TodoError>(crate::error::TodoError::MathOverflow)
                    && *final(self) == *old(self),
            },
            old(self).wf() ==> final(self).wf(),
    {
        match self.todo_count.checked_sub(1) {
            Some(count) => {
                self.todo_count = count;
                Ok(())
            },
            None => Err(crate::error::TodoError::MathOverflow),
        }
    }
}

impl TodoAccount {
    /// The todo that `add` creates: not completed.
    pub open spec fn fresh(authority: Address, idx: u8, content: String) -> TodoAccount {
        TodoAccount { authority, idx, content, marked: false }
    }

    /// Creates a todo that is not completed.
    pub fn new(authority: Address, idx: u8, content: String) -> (r: TodoAccount)
        ensures
            r == TodoAccount::fresh(authority, idx, content),
    {
        TodoAccount { authority, idx, content, marked: false }
    }
}

} // verus!
