//! A personal todo list kept as records on a ledger: one profile per owner and
//! one record per item, each at an address derived from the owner's identity.
//!
//! An operation receives the records it works on in a context: the caller, and
//! for each record the address of the slot that was handed in and what the slot
//! holds. It checks the slots against the derived addresses, the stored owners
//! against the caller, and then applies one change, or none at all.

pub mod address;
pub mod error;
pub mod laws;
pub mod states;

use vstd::prelude::*;
use crate::address::{derived_view, todo_address, todo_location, user_profile_address, user_profile_location, Address};
use crate::error::TodoError;
use crate::states::{TodoAccount, UserProfile};

verus! {

/// The records of `initialize_user`.
#[derive(Clone, Copy, Debug, PartialEq, Eq)]
pub struct InitializeUser {
    /// The caller, whose signature the ledger has verified.
    pub authority: Address,
    /// The address of the slot handed in for the profile.
    pub user_profile_key: Address,
    /// What the slot holds: `None` while no profile was created there.
    pub user_profile: Option<UserProfile>,
}

/// The records of `add_todo`.
#[derive(Clone, Debug, PartialEq, Eq)]
pub struct AddTodo {
    /// The caller, whose signature the ledger has verified.
    pub authority: Address,
    /// The address of the slot handed in for the profile.
    pub user_profile_key: Address,
    /// What the profile's slot holds.
    pub user_profile: Option<UserProfile>,
    /// The address of the slot handed in for the new todo.
    pub todo_account_key: Address,
    /// What the todo's slot holds: `None` while it is free.
    pub todo_account: Option<TodoAccount>,
}

/// The records of `mark_todo`.
#[derive(Clone, Debug, PartialEq, Eq)]
pub struct MarkTodo {
    /// The caller, whose signature the ledger has verified.
    pub authority: Address,
    /// The address of the slot handed in for the profile.
    pub user_profile_key: Address,
    /// What the profile's slot holds.
    pub user_profile: Option<UserProfile>,
    /// The address of the slot handed in for the todo.
    pub todo_account_key: Address,
    /// What the todo's slot holds: `None` where no todo exists there.
    pub todo_account: Option<TodoAccount>,
}

/// The records of `remove_todo`.
#[derive(Clone, Debug, PartialEq, Eq)]
pub struct RemoveTodo {
    /// The caller, whose signature the ledger has verified.
    pub authority: Address,
    /// The address of the slot handed in for the profile.
    pub user_profile_key: Address,
    /// What the profile's slot holds.
    pub user_profile: Option<UserProfile>,
    /// The address of the slot handed in for the todo.
    pub todo_account_key: Address,
    /// What the todo's slot holds: `None` where no todo exists there.
    pub todo_account: Option<TodoAccount>,
}

/// Whether `key` is the address of a derived location.
pub open spec fn located(key: Address, location: Option<(Seq<u8>, u8)>) -> bool {
    match location {
        Some((at, _)) => at == key@,
        None => false,
    }
}

/// The profile that an operation of `authority` works on: the slot is at the
/// derived location, holds a profile, and the profile's owner is the caller.
pub open spec fn profile_guard(
    authority: Address,
    key: Address,
    slot: Option<UserProfile>,
    location: Option<(Seq<u8>, u8)>,
) -> Result<UserProfile, TodoError> {
    if !located(key, location) {
        Err(TodoError::NotAllowed)
    } else {
        match slot {
            None => Err(TodoError::NotAllowed),
            Some(profile) => if profile.authority@ != authority@ {
                Err(TodoError::Unauthorized)
            } else {
                Ok(profile)
            },
        }
    }
}

/// The todo that an operation of `authority` works on: the slot is at the
/// derived location, holds a todo, and the todo's owner is the caller.
pub open spec fn todo_guard(
    authority: Address,
    key: Address,
    slot: Option<TodoAccount>,
    location: Option<(Seq<u8>, u8)>,
) -> Result<TodoAccount, TodoError> {
    if !located(key, location) {
        Err(TodoError::NotAllowed)
    } else {
        match slot {
            None => Err(TodoError::NotAllowed),
            Some(todo) => if todo.authority@ != authority@ {
                Err(TodoError::Unauthorized)
            } else {
                Ok(todo)
            },
        }
    }
}

/// The index that the next todo under a profile slot gets; 0 for an empty slot.
pub open spec fn next_index(slot: Option<UserProfile>) -> u8 {
    match slot {
        Some(profile) => profile.last_todo,
        None => 0,
    }
}

/// What `initialize_user` does to its records, given the derived location of
/// the caller's profile: the records after it, or why it is refused.
pub open spec fn initialize_user_outcome(
    ctx: InitializeUser,
    profile_at: Option<(Seq<u8>, u8)>,
) -> Result<InitializeUser, TodoError> {
    if !located(ctx.user_profile_key, profile_at) {
        Err(TodoError::NotAllowed)
    } else if ctx.user_profile is Some {
        Err(TodoError::NotAllowed)
    } else {
        Ok(
            InitializeUser {
                authority: ctx.authority,
                user_profile_key: ctx.user_profile_key,
                user_profile: Some(UserProfile::fresh(ctx.authority)),
            },
        )
    }
}

/// What `add_todo` does to its records, given the derived locations of the
/// caller's profile and of the todo with the profile's next index.
pub open spec fn add_todo_outcome(
    ctx: AddTodo,
    content: String,
    profile_at: Option<(Seq<u8>, u8)>,
    todo_at: Option<(Seq<u8>, u8)>,
) -> Result<AddTodo, TodoError> {
    match profile_guard(ctx.authority, ctx.user_profile_key, ctx.user_profile, profile_at) {
        Err(e) => Err(e),
        Ok(profile) => if !located(ctx.todo_account_key, todo_at) {
            Err(TodoError::NotAllowed)
        } else if ctx.todo_account is Some {
            Err(TodoError::NotAllowed)
        } else {
            match profile.grown() {
                None => Err(TodoError::MathOverflow),
                Some(grown) => Ok(
                    AddTodo {
                        authority: ctx.authority,
                        user_profile_key: ctx.user_profile_key,
                        user_profile: Some(grown),
                        todo_account_key: ctx.todo_account_key,
                        todo_account: Some(
                            TodoAccount::fresh(ctx.authority, profile.last_todo, content),
                        ),
                    },
                ),
            }
        },
    }
}

/// What `mark_todo` does to its records, given the derived locations of the
/// caller's profile and of the caller's todo with the index asked for.
pub open spec fn mark_todo_outcome(
    ctx: MarkTodo,
    profile_at: Option<(Seq<u8>, u8)>,
    todo_at: Option<(Seq<u8>, u8)>,
) -> Result<MarkTodo, TodoError> {
    match profile_guard(ctx.authority, ctx.user_profile_key, ctx.user_profile, profile_at) {
        Err(e) => Err(e),
        Ok(_) => match todo_guard(ctx.authority, ctx.todo_account_key, ctx.todo_account, todo_at) {
            Err(e) => Err(e),
            Ok(todo) => if todo.marked {
                Err(TodoError::AlreadyMarked)
            } else {
                Ok(
                    MarkTodo {
                        authority: ctx.authority,
                        user_profile_key: ctx.user_profile_key,
                        user_profile: ctx.user_profile,
                        todo_account_key: ctx.todo_account_key,
                        todo_account: Some(
                            TodoAccount {
                                authority: todo.authority,
                                idx: todo.idx,
                                content: todo.content,
                                marked: true,
                            },
                        ),
                    },
                )
            },
        },
    }
}

/// What `remove_todo` does to its records, given the derived locations of the
/// caller's profile and of the caller's todo with the index asked for.
pub open spec fn remove_todo_outcome(
    ctx: RemoveTodo,
    profile_at: Option<(Seq<u8>, u8)>,
    todo_at: Option<(Seq<u8>, u8)>,
) -> Result<RemoveTodo, TodoError> {
    match profile_guard(ctx.authority, ctx.user_profile_key, ctx.user_profile, profile_at) {
        Err(e) => Err(e),
        Ok(profile) => match todo_guard(
            ctx.authority,
            ctx.todo_account_key,
            ctx.todo_account,
            todo_at,
        ) {
            Err(e) => Err(e),
            Ok(_) => match profile.shrunk() {
                None => Err(TodoError::MathOverflow),
                Some(shrunk) => Ok(
                    RemoveTodo {
                        authority: ctx.authority,
                        user_profile_key: ctx.user_profile_key,
                        user_profile: Some(shrunk),
                        todo_account_key: ctx.todo_account_key,
                        todo_account: None,
                    },
                ),
            },
        },
    }
}

/// An operation is all or nothing: on success the records are those of the
/// outcome, on failure the error is that of the outcome and no record changed.
pub open spec fn settled<C>(
    before: C,
    after: C,
    result: Result<(), TodoError>,
    outcome: Result<C, TodoError>,
) -> bool {
    match outcome {
        Ok(records) => result is Ok && after == records,
        Err(e) => result == Err::<(), TodoError>(e) && after == before,
    }
}

/// Whether `key` is the address that was derived.
pub fn is_located(key: &Address, location: &Option<(Address, u8)>) -> (r: bool)
    ensures
        r == located(*key, derived_view(*location)),
{
    match location {
        Some((at, _)) => at.same(key),
        None => false,
    }
}

/// Checks a profile slot against the caller; see `profile_guard`.
pub fn check_profile(
    authority: &Address,
    key: &Address,
    slot: &Option<UserProfile>,
    location: &Option<(Address, u8)>,
) -> (r: Result<UserProfile, TodoError>)
    ensures
        r == profile_guard(*authority, *key, *slot, derived_view(*location)),
{
    if !is_located(key, location) {
        return Err(TodoError::NotAllowed);
    }
    match slot {
        None => Err(TodoError::NotAllowed),
        Some(profile) => {
            if !profile.authority.same(authority) {
                Err(TodoError::Unauthorized)
            } else {
                Ok(*profile)
            }
        },
    }
}

/// Checks a todo slot against the caller; see `todo_guard`. On success, says
/// whether the todo is completed.
pub fn check_todo(
    authority: &Address,
    key: &Address,
    slot: &Option<TodoAccount>,
    location: &Option<(Address, u8)>,
) -> (r: Result<bool, TodoError>)
    ensures
        match todo_guard(*authority, *key, *slot, derived_view(*location)) {
            Ok(todo) => r == Ok::<bool, TodoError>(todo.marked),
            Err(e) => r == Err::<bool, TodoError>(e),
        },
{
    if !is_located(key, location) {
        return Err(TodoError::NotAllowed);
    }
    match slot {
        None => Err(TodoError::NotAllowed),
        Some(todo) => {
            if !todo.authority.same(authority) {
                Err(TodoError::Unauthorized)
            } else {
                Ok(todo.marked)
            }
        },
    }
}

/// `initialize_user` for a given derived location of the caller's profile.
pub fn initialize_user_at(ctx: &mut InitializeUser, profile_at: Option<(Address, u8)>) -> (r:
    Result<(), TodoError>)
    ensures
        settled(*old(ctx), *final(ctx), r, initialize_user_outcome(*old(ctx), derived_view(profile_at))),
{
    if !is_located(&ctx.user_profile_key, &profile_at) {
        return Err(TodoError::NotAllowed);
    }
    if ctx.user_profile.is_some() {
        return Err(TodoError::NotAllowed);
    }
    ctx.user_profile = Some(UserProfile::new(ctx.authority));
    Ok(())
}

/// Creates the caller's profile, with no todos. Refused with `NotAllowed`
/// where the slot is not at the address derived for the caller or already
/// holds a profile.
pub fn initialize_user(ctx: &mut InitializeUser) -> (r: Result<(), TodoError>)
    ensures
        settled(
            *old(ctx),
            *final(ctx),
            r,
            initialize_user_outcome(*old(ctx), user_profile_location(old(ctx).authority@)),
        ),
{
    let profile_at = user_profile_address(&ctx.authority);
    initialize_user_at(ctx, profile_at)
}

/// `add_todo` for given derived locations of the caller's profile and of the
/// todo with the profile's next index.
pub fn add_todo_at(
    ctx: &mut AddTodo,
    content: String,
    profile_at: Option<(Address, u8)>,
    todo_at: Option<(Address, u8)>,
) -> (r: Result<(), TodoError>)
    ensures
        settled(
            *old(ctx),
            *final(ctx),
            r,
            add_todo_outcome(*old(ctx), content, derived_view(profile_at), derived_view(todo_at)),
        ),
{
    let mut profile = check_profile(
        &ctx.authority,
        &ctx.user_profile_key,
        &ctx.user_profile,
        &profile_at,
    )?;
    if !is_located(&ctx.todo_account_key, &todo_at) {
        return Err(TodoError::NotAllowed);
    }
    if ctx.todo_account.is_some() {
        return Err(TodoError::NotAllowed);
    }
    let idx = profile.record_added()?;
    ctx.todo_account = Some(TodoAccount::new(ctx.authority, idx, content));
    ctx.user_profile = Some(profile);
    Ok(())
}

/// Creates a todo with the given text under the caller's profile. The todo
/// gets the profile's `last_todo` as its index and is not completed; both
/// counters of the profile go up by one.
///
/// Refused with `NotAllowed` where a slot is not at its derived address, the
/// profile is missing or the todo's slot is taken; with `Unauthorized` where
/// the profile belongs to another owner; with `MathOverflow` where a counter
/// is at its maximum.
pub fn add_todo(ctx: &mut AddTodo, content: String) -> (r: Result<(), TodoError>)
    ensures
        settled(
            *old(ctx),
            *final(ctx),
            r,
            add_todo_outcome(
                *old(ctx),
                content,
                user_profile_location(old(ctx).authority@),
                todo_location(old(ctx).authority@, next_index(old(ctx).user_profile)),
            ),
        ),
{
    let profile_at = user_profile_address(&ctx.authority);
    let idx: u8 = match &ctx.user_profile {
        Some(profile) => profile.last_todo,
        None => 0,
    };
    let todo_at = todo_address(&ctx.authority, idx);
    add_todo_at(ctx, content, profile_at, todo_at)
}

/// `mark_todo` for given derived locations of the caller's profile and todo.
pub fn mark_todo_at(
    ctx: &mut MarkTodo,
    profile_at: Option<(Address, u8)>,
    todo_at: Option<(Address, u8)>,
) -> (r: Result<(), TodoError>)
    ensures
        settled(
            *old(ctx),
            *final(ctx),
            r,
            mark_todo_outcome(*old(ctx), derived_view(profile_at), derived_view(todo_at)),
        ),
{
    check_profile(&ctx.authority, &ctx.user_profile_key, &ctx.user_profile, &profile_at)?;
    let marked = check_todo(&ctx.authority, &ctx.todo_account_key, &ctx.todo_account, &todo_at)?;
    if marked {
        return Err(TodoError::AlreadyMarked);
    }
    match &mut ctx.todo_account {
        Some(todo) => {
            todo.marked = true;
        },
        None => {},
    }
    Ok(())
}

/// Completes the caller's todo with index `todo_idx`. Nothing else changes.
///
/// Refused with `NotAllowed` where a slot is not at its derived address or
/// holds no record; with `Unauthorized` where a record belongs to another
/// owner; with `AlreadyMarked` where the todo is completed already.
pub fn mark_todo(ctx: &mut MarkTodo, todo_idx: u8) -> (r: Result<(), TodoError>)
    ensures
        settled(
            *old(ctx),
            *final(ctx),
            r,
            mark_todo_outcome(
                *old(ctx),
                user_profile_location(old(ctx).authority@),
                todo_location(old(ctx).authority@, todo_idx),
            ),
        ),
{
    let profile_at = user_profile_address(&ctx.authority);
    let todo_at = todo_address(&ctx.authority, todo_idx);
    mark_todo_at(ctx, profile_at, todo_at)
}

/// `remove_todo` for given derived locations of the caller's profile and todo.
pub fn remove_todo_at(
    ctx: &mut RemoveTodo,
    profile_at: Option<(Address, u8)>,
    todo_at: Option<(Address, u8)>,
) -> (r: Result<(), TodoError>)
    ensures
        settled(
            *old(ctx),
            *final(ctx),
            r,
            remove_todo_outcome(*old(ctx), derived_view(profile_at), derived_view(todo_at)),
        ),
{
    let mut profile = check_profile(
        &ctx.authority,
        &ctx.user_profile_key,
        &ctx.user_profile,
        &profile_at,
    )?;
    check_todo(&ctx.authority, &ctx.todo_account_key, &ctx.todo_account, &todo_at)?;
    profile.record_removed()?;
    ctx.user_profile = Some(profile);
    ctx.todo_account = None;
    Ok(())
}

/// Removes the caller's todo with index `todo_idx`, completed or not: its slot
/// is empty afterwards and the profile's `todo_count` goes down by one, while
/// `last_todo` stays, so that the index is never given out again.
///
/// Refused with `NotAllowed` where a slot is not at its derived address or
/// holds no record; with `Unauthorized` where a record belongs to another
/// owner; with `MathOverflow` where the profile counts no todo.
pub fn remove_todo(ctx: &mut RemoveTodo, todo_idx: u8) -> (r: Result<(), TodoError>)
    ensures
        settled(
            *old(ctx),
            *final(ctx),
            r,
            remove_todo_outcome(
                *old(ctx),
                user_profile_location(old(ctx).authority@),
                todo_location(old(ctx).authority@, todo_idx),
            ),
        ),
{
    let profile_at = user_profile_address(&ctx.authority);
    let todo_at = todo_address(&ctx.authority, todo_idx);
    remove_todo_at(ctx, profile_at, todo_at)
}

} // verus!
