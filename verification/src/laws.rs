//! What holds of the operations across calls: a model of the ledger that
//! keeps the records between calls, and laws proved of it.

use vstd::prelude::*;
use crate::address::{todo_location, user_profile_location, Address};
use crate::error::TodoError;
use crate::states::{TodoAccount, UserProfile};
use crate::{
    add_todo_outcome, initialize_user_outcome, located, mark_todo_outcome, next_index,
    remove_todo_outcome, AddTodo, InitializeUser, MarkTodo, RemoveTodo,
};

verus! {

/// What the ledger stores: profiles and todos, each under the bytes of its
/// address.
pub struct Ledger {
    pub profiles: Map<Seq<u8>, UserProfile>,
    pub todos: Map<Seq<u8>, TodoAccount>,
}

/// What a caller asks for.
pub enum Request {
    Initialize,
    Add(String),
    Mark(u8),
    Remove(u8),
}

/// One call: the caller, the addresses of the slots that the caller names for
/// the profile and for the todo, and the request. The caller is free to name
/// any slots; the operation decides whether they are the right ones.
pub struct Call {
    pub authority: Address,
    pub user_profile_key: Address,
    pub todo_account_key: Address,
    pub request: Request,
}

/// What a slot holds.
pub open spec fn slot<T>(records: Map<Seq<u8>, T>, key: Seq<u8>) -> Option<T> {
    if records.dom().contains(key) {
        Some(records[key])
    } else {
        None
    }
}

/// The records after a slot was written back.
pub open spec fn stored<T>(records: Map<Seq<u8>, T>, key: Seq<u8>, value: Option<T>) -> Map<
    Seq<u8>,
    T,
> {
    match value {
        Some(record) => records.insert(key, record),
        None => records.remove(key),
    }
}

/// The ledger after a call, and whether the call succeeded: the named slots
/// are handed to the operation, with the locations derived for the caller, and
/// written back where it succeeds. A refused call leaves the ledger as it was.
pub open spec fn apply(ledger: Ledger, call: Call) -> (Ledger, bool) {
    let profile = slot(ledger.profiles, call.user_profile_key@);
    let todo = slot(ledger.todos, call.todo_account_key@);
    let profile_at = user_profile_location(call.authority@);
    match call.request {
        Request::Initialize => {
            let ctx = InitializeUser {
                authority: call.authority,
                user_profile_key: call.user_profile_key,
                user_profile: profile,
            };
            match initialize_user_outcome(ctx, profile_at) {
                Ok(after) => (
                    Ledger {
                        profiles: stored(
                            ledger.profiles,
                            call.user_profile_key@,
                            after.user_profile,
                        ),
                        todos: ledger.todos,
                    },
                    true,
                ),
                Err(_) => (ledger, false),
            }
        },
        Request::Add(content) => {
            let ctx = AddTodo {
                authority: call.authority,
                user_profile_key: call.user_profile_key,
                user_profile: profile,
                todo_account_key: call.todo_account_key,
                todo_account: todo,
            };
            let todo_at = todo_location(call.authority@, next_index(profile));
            match add_todo_outcome(ctx, content, profile_at, todo_at) {
                Ok(after) => (
                    Ledger {
                        profiles: stored(
                            ledger.profiles,
                            call.user_profile_key@,
                            after.user_profile,
                        ),
                        todos: stored(ledger.todos, call.todo_account_key@, after.todo_account),
                    },
                    true,
                ),
                Err(_) => (ledger, false),
            }
        },
        Request::Mark(idx) => {
            let ctx = MarkTodo {
                authority: call.authority,
                user_profile_key: call.user_profile_key,
                user_profile: profile,
                todo_account_key: call.todo_account_key,
                todo_account: todo,
            };
            match mark_todo_outcome(ctx, profile_at, todo_location(call.authority@, idx)) {
                Ok(after) => (
                    Ledger {
                        profiles: stored(
                            ledger.profiles,
                            call.user_profile_key@,
                            after.user_profile,
                        ),
                        todos: stored(ledger.todos, call.todo_account_key@, after.todo_account),
                    },
                    true,
                ),
                Err(_) => (ledger, false),
            }
        },
        Request::Remove(idx) => {
            let ctx = RemoveTodo {
                authority: call.authority,
                user_profile_key: call.user_profile_key,
                user_profile: profile,
                todo_account_key: call.todo_account_key,
                todo_account: todo,
            };
            match remove_todo_outcome(ctx, profile_at, todo_location(call.authority@, idx)) {
                Ok(after) => (
                    Ledger {
                        profiles: stored(
                            ledger.profiles,
                            call.user_profile_key@,
                            after.user_profile,
                        ),
                        todos: stored(ledger.todos, call.todo_account_key@, after.todo_account),
                    },
                    true,
                ),
                Err(_) => (ledger, false),
            }
        },
    }
}

/// The ledger after a sequence of calls, the first call first.
pub open spec fn replay(start: Ledger, calls: Seq<Call>) -> Ledger
    decreases calls.len(),
{
    if calls.len() == 0 {
        start
    } else {
        apply(replay(start, calls.drop_last()), calls.last()).0
    }
}

/// Whether the last of a sequence of calls succeeds.
pub open spec fn last_succeeds(start: Ledger, calls: Seq<Call>) -> bool
    recommends
        calls.len() > 0,
{
    apply(replay(start, calls.drop_last()), calls.last()).1
}

/// How many of the calls are successful `Add`s of `owner`.
pub open spec fn adds_of(owner: Seq<u8>, start: Ledger, calls: Seq<Call>) -> nat
    decreases calls.len(),
{
    if calls.len() == 0 {
        0
    } else if calls.last().request is Add && calls.last().authority@ == owner && last_succeeds(
        start,
        calls,
    ) {
        adds_of(owner, start, calls.drop_last()) + 1
    } else {
        adds_of(owner, start, calls.drop_last())
    }
}

/// How many of the calls are successful `Remove`s of `owner`.
pub open spec fn removes_of(owner: Seq<u8>, start: Ledger, calls: Seq<Call>) -> nat
    decreases calls.len(),
{
    if calls.len() == 0 {
        0
    } else if calls.last().request is Remove && calls.last().authority@ == owner
        && last_succeeds(start, calls) {
        removes_of(owner, start, calls.drop_last()) + 1
    } else {
        removes_of(owner, start, calls.drop_last())
    }
}

/// Whether `key` holds the bytes of a derived location.
pub open spec fn located_at(key: Seq<u8>, location: Option<(Seq<u8>, u8)>) -> bool {
    match location {
        Some((at, _)) => at == key,
        None => false,
    }
}

/// The ledger holds the profile of `owner` at the location derived for it.
pub open spec fn has_profile(ledger: Ledger, owner: Seq<u8>) -> bool {
    match user_profile_location(owner) {
        Some((at, _)) => match slot(ledger.profiles, at) {
            Some(profile) => profile.authority@ == owner,
            None => false,
        },
        None => false,
    }
}

/// The profile of `owner` in a ledger that holds it.
pub open spec fn profile_of(ledger: Ledger, owner: Seq<u8>) -> UserProfile
    recommends
        has_profile(ledger, owner),
{
    ledger.profiles[user_profile_location(owner).unwrap().0]
}

/// A profile is created exactly once. `initialize_user` succeeds exactly when
/// the slot is at the address derived for the caller and empty; it then holds
/// the caller's profile without todos, and the same call on the records it
/// left is refused with `NotAllowed`.
pub proof fn lemma_initialize_user_once(ctx: InitializeUser, profile_at: Option<(Seq<u8>, u8)>)
    ensures
        initialize_user_outcome(ctx, profile_at) is Ok <==> located(
            ctx.user_profile_key,
            profile_at,
        ) && ctx.user_profile is None,
        match initialize_user_outcome(ctx, profile_at) {
            Ok(after) => after.user_profile == Some(UserProfile::fresh(ctx.authority))
                && initialize_user_outcome(after, profile_at) == Err::<InitializeUser, TodoError>(
                TodoError::NotAllowed,
            ),
            Err(e) => e == TodoError::NotAllowed,
        },
{
}

/// One call changes the profile of `owner` only through a successful `Add` or
/// `Remove` of `owner`, never removes it, and keeps its owner.
pub proof fn lemma_profile_step(ledger: Ledger, call: Call, owner: Seq<u8>)
    requires
        has_profile(ledger, owner),
    ensures
        has_profile(apply(ledger, call).0, owner),
        ({
            let before = profile_of(ledger, owner);
            let after = profile_of(apply(ledger, call).0, owner);
            if apply(ledger, call).1 && call.authority@ == owner && call.request is Add {
                Some(after) == before.grown()
            } else if apply(ledger, call).1 && call.authority@ == owner && call.request is Remove {
                Some(after) == before.shrunk()
            } else {
                after == before
            }
        }),
{
}

/// Counters. From a ledger that holds the profile of `owner`, after any
/// sequence of calls by any callers: the profile is still there, its
/// `last_todo` went up by the number of successful `Add`s of `owner`, and its
/// `todo_count` changed by that number less the number of successful
/// `Remove`s of `owner`, so that it never goes below zero.
pub proof fn lemma_counters(start: Ledger, calls: Seq<Call>, owner: Seq<u8>)
    requires
        has_profile(start, owner),
    ensures
        has_profile(replay(start, calls), owner),
        profile_of(replay(start, calls), owner).last_todo == profile_of(start, owner).last_todo
            + adds_of(owner, start, calls),
        profile_of(replay(start, calls), owner).todo_count == profile_of(start, owner).todo_count
            + adds_of(owner, start, calls) - removes_of(owner, start, calls),
        profile_of(start, owner).wf() ==> profile_of(replay(start, calls), owner).wf(),
    decreases calls.len(),
{
    if calls.len() > 0 {
        lemma_counters(start, calls.drop_last(), owner);
        lemma_profile_step(replay(start, calls.drop_last()), calls.last(), owner);
    }
}

/// Indices follow the order of creation. From a ledger in which `owner` has
/// just been initialised, after any sequence of calls: `last_todo` is the
/// number of successful `Add`s of `owner`, `todo_count` is that number less
/// the successful `Remove`s, and where the last call is a successful `Add` of
/// `owner`, the todo it created is in its slot, not completed, with the text
/// given and with the number of earlier successful `Add`s as its index.
pub proof fn lemma_indices_count_adds(start: Ledger, calls: Seq<Call>, owner: Seq<u8>)
    requires
        has_profile(start, owner),
        profile_of(start, owner).last_todo == 0,
        profile_of(start, owner).todo_count == 0,
    ensures
        has_profile(replay(start, calls), owner),
        profile_of(replay(start, calls), owner).last_todo == adds_of(owner, start, calls),
        profile_of(replay(start, calls), owner).todo_count == adds_of(owner, start, calls)
            - removes_of(owner, start, calls),
        removes_of(owner, start, calls) <= adds_of(owner, start, calls),
        calls.len() > 0 && last_succeeds(start, calls) && calls.last().authority@ == owner ==> (
        match calls.last().request {
            Request::Add(content) => slot(
                replay(start, calls).todos,
                calls.last().todo_account_key@,
            ) == Some(
                TodoAccount::fresh(
                    calls.last().authority,
                    (adds_of(owner, start, calls) - 1) as u8,
                    content,
                ),
            ),
            _ => true,
        }),
{
    lemma_counters(start, calls, owner);
    if calls.len() > 0 {
        lemma_counters(start, calls.drop_last(), owner);
        lemma_profile_step(replay(start, calls.drop_last()), calls.last(), owner);
    }
}

/// A profile is created once for good: from a ledger that holds the profile of
/// `owner`, after any sequence of calls, `Initialize` by `owner` is refused,
/// whichever slots the caller names.
pub proof fn lemma_initialize_refused_ever_after(start: Ledger, calls: Seq<Call>, again: Call)
    requires
        has_profile(start, again.authority@),
        again.request is Initialize,
    ensures
        !apply(replay(start, calls), again).1,
        apply(replay(start, calls), again).0 == replay(start, calls),
{
    lemma_counters(start, calls, again.authority@);
}

/// After a successful `Initialize` the ledger holds the caller's profile,
/// without todos.
pub proof fn lemma_initialize_creates(ledger: Ledger, call: Call)
    requires
        call.request is Initialize,
        apply(ledger, call).1,
    ensures
        has_profile(apply(ledger, call).0, call.authority@),
        profile_of(apply(ledger, call).0, call.authority@) == UserProfile::fresh(call.authority),
{
}

/// Every stored todo is in its place: at the location derived from its own
/// owner and index, under a profile of that owner that has given the index
/// out already.
pub open spec fn todos_in_place(ledger: Ledger) -> bool {
    forall|key: Seq<u8>| #[trigger]
        ledger.todos.dom().contains(key) ==> {
            let todo = ledger.todos[key];
            &&& located_at(key, todo_location(todo.authority@, todo.idx))
            &&& has_profile(ledger, todo.authority@)
            &&& todo.idx < profile_of(ledger, todo.authority@).last_todo
        }
}

/// No call takes a todo out of its place: whatever is asked for, by whom and
/// on which slots, afterwards every stored todo is still at the location
/// derived from its owner and index, and its index is below its owner's
/// `last_todo`.
pub proof fn lemma_todos_stay_in_place(ledger: Ledger, call: Call)
    requires
        todos_in_place(ledger),
    ensures
        todos_in_place(apply(ledger, call).0),
{
    let after = apply(ledger, call).0;
    assert forall|key: Seq<u8>| #[trigger] after.todos.dom().contains(key) implies ({
        let todo = after.todos[key];
        &&& located_at(key, todo_location(todo.authority@, todo.idx))
        &&& has_profile(after, todo.authority@)
        &&& todo.idx < profile_of(after, todo.authority@).last_todo
    }) by {
        let todo = after.todos[key];
        if ledger.todos.dom().contains(key) {
            lemma_profile_step(ledger, call, ledger.todos[key].authority@);
        }
        if has_profile(ledger, call.authority@) {
            lemma_profile_step(ledger, call, call.authority@);
        }
    }
}

/// The same of any sequence of calls: from a ledger in which every todo is in
/// its place, such as the empty one, no sequence of calls reaches one in which
/// a todo is not.
pub proof fn lemma_todos_always_in_place(start: Ledger, calls: Seq<Call>)
    requires
        todos_in_place(start),
    ensures
        todos_in_place(replay(start, calls)),
    decreases calls.len(),
{
    if calls.len() > 0 {
        lemma_todos_always_in_place(start, calls.drop_last());
        lemma_todos_stay_in_place(replay(start, calls.drop_last()), calls.last());
    }
}

/// The addresses at which the ledger holds a todo of `owner`.
pub open spec fn todos_of(ledger: Ledger, owner: Seq<u8>) -> Set<Seq<u8>> {
    Set::new(
        |key: Seq<u8>| ledger.todos.dom().contains(key) && ledger.todos[key].authority@ == owner,
    )
}

/// The profile of `owner` counts the todos of `owner` that the ledger holds.
pub open spec fn count_is_exact(ledger: Ledger, owner: Seq<u8>) -> bool {
    &&& has_profile(ledger, owner)
    &&& todos_of(ledger, owner).finite()
    &&& profile_of(ledger, owner).todo_count == todos_of(ledger, owner).len()
}

/// `todo_count` is the number of todos that exist. Where the profile of
/// `owner` counts the todos of `owner` in the ledger, as it does right after
/// `Initialize` in a ledger without todos of `owner`, it still does after any
/// call.
pub proof fn lemma_count_stays_exact(ledger: Ledger, call: Call, owner: Seq<u8>)
    requires
        count_is_exact(ledger, owner),
    ensures
        count_is_exact(apply(ledger, call).0, owner),
{
    let after = apply(ledger, call).0;
    let key = call.todo_account_key@;
    let mine = call.authority@ == owner;
    lemma_profile_step(ledger, call, owner);
    if apply(ledger, call).1 && mine && call.request is Add {
        assert(todos_of(after, owner) =~= todos_of(ledger, owner).insert(key));
        assert(!todos_of(ledger, owner).contains(key));
    } else if apply(ledger, call).1 && mine && call.request is Remove {
        assert(todos_of(after, owner) =~= todos_of(ledger, owner).remove(key));
        assert(todos_of(ledger, owner).contains(key));
    } else {
        assert(todos_of(after, owner) =~= todos_of(ledger, owner));
    }
}

/// The same of any sequence of calls.
pub proof fn lemma_count_always_exact(start: Ledger, calls: Seq<Call>, owner: Seq<u8>)
    requires
        count_is_exact(start, owner),
    ensures
        count_is_exact(replay(start, calls), owner),
    decreases calls.len(),
{
    if calls.len() > 0 {
        lemma_count_always_exact(start, calls.drop_last(), owner);
        lemma_count_stays_exact(replay(start, calls.drop_last()), calls.last(), owner);
    }
}

/// Completing is detected the second time. Where `mark_todo` succeeds, the
/// todo is completed and nothing else changed; the same call on the records it
/// left is refused with `AlreadyMarked`, which leaves the todo completed.
pub proof fn lemma_mark_todo_twice(
    ctx: MarkTodo,
    profile_at: Option<(Seq<u8>, u8)>,
    todo_at: Option<(Seq<u8>, u8)>,
)
    ensures
        match mark_todo_outcome(ctx, profile_at, todo_at) {
            Ok(after) => ctx.todo_account is Some && !ctx.todo_account.unwrap().marked
                && after.todo_account == Some(
                TodoAccount {
                    authority: ctx.todo_account.unwrap().authority,
                    idx: ctx.todo_account.unwrap().idx,
                    content: ctx.todo_account.unwrap().content,
                    marked: true,
                },
            ) && after.user_profile == ctx.user_profile && mark_todo_outcome(
                after,
                profile_at,
                todo_at,
            ) == Err::<MarkTodo, TodoError>(TodoError::AlreadyMarked),
            Err(_) => true,
        },
{
}

/// A todo that does not exist cannot be removed. `remove_todo` on an empty
/// slot (no todo was created there, or it was removed) is refused; and where
/// `remove_todo` succeeds, the slot is empty and the same call on the records
/// it left is refused with `NotAllowed`. A refused call changes no record, so
/// the counters stay.
pub proof fn lemma_remove_todo_missing(
    ctx: RemoveTodo,
    profile_at: Option<(Seq<u8>, u8)>,
    todo_at: Option<(Seq<u8>, u8)>,
)
    ensures
        ctx.todo_account is None ==> remove_todo_outcome(ctx, profile_at, todo_at) is Err,
        ctx.todo_account is None && ctx.user_profile is Some && ctx.user_profile.unwrap().authority@
            == ctx.authority@ ==> remove_todo_outcome(ctx, profile_at, todo_at) == Err::<
            RemoveTodo,
            TodoError,
        >(TodoError::NotAllowed),
        match remove_todo_outcome(ctx, profile_at, todo_at) {
            Ok(after) => after.todo_account is None && remove_todo_outcome(
                after,
                profile_at,
                todo_at,
            ) == Err::<RemoveTodo, TodoError>(TodoError::NotAllowed),
            Err(_) => true,
        },
{
}

/// In the ledger, `Remove` on a slot that holds no todo fails and changes
/// nothing.
pub proof fn lemma_remove_missing_changes_nothing(ledger: Ledger, call: Call)
    requires
        call.request is Remove,
        slot(ledger.todos, call.todo_account_key@) is None,
    ensures
        apply(ledger, call) == (ledger, false),
{
}

/// Owners are isolated. Whatever a caller asks for and whichever slots the
/// caller names, every record whose stored owner is not the caller is after
/// the call what it was before, and a call that names such a record is
/// refused.
pub proof fn lemma_other_owners_untouched(ledger: Ledger, call: Call, key: Seq<u8>)
    ensures
        match slot(ledger.profiles, key) {
            Some(profile) => profile.authority@ != call.authority@ ==> slot(
                apply(ledger, call).0.profiles,
                key,
            ) == Some(profile) && (key == call.user_profile_key@ ==> !apply(ledger, call).1),
            None => true,
        },
        match slot(ledger.todos, key) {
            Some(todo) => todo.authority@ != call.authority@ ==> slot(
                apply(ledger, call).0.todos,
                key,
            ) == Some(todo) && (key == call.todo_account_key@ && !(call.request is Initialize)
                ==> !apply(ledger, call).1),
            None => true,
        },
{
}

/// Owners are isolated by address too: a successful call changes no slot but
/// those at the locations derived for the caller.
pub proof fn lemma_only_own_locations_change(ledger: Ledger, call: Call, key: Seq<u8>)
    ensures
        !located_at(key, user_profile_location(call.authority@)) ==> slot(
            apply(ledger, call).0.profiles,
            key,
        ) == slot(ledger.profiles, key),
        (forall|idx: u8| !located_at(key, #[trigger] todo_location(call.authority@, idx))) ==> slot(
            apply(ledger, call).0.todos,
            key,
        ) == slot(ledger.todos, key),
{
}

} // verus!
