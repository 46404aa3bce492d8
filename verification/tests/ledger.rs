use std::collections::HashMap;

use clever_todo::address::{todo_address, user_profile_address, Address};
use clever_todo::error::TodoError;
use clever_todo::states::{TodoAccount, UserProfile};
use clever_todo::{
    add_todo, initialize_user, mark_todo, remove_todo, AddTodo, InitializeUser, MarkTodo,
    RemoveTodo,
};

/// A stand-in for the ledger: it keeps the records between calls and hands
/// each operation the slots that the caller names.
struct Store {
    profiles: HashMap<Address, UserProfile>,
    todos: HashMap<Address, TodoAccount>,
}

fn owner(byte: u8) -> Address {
    Address { bytes: [byte; 32] }
}

fn profile_key(who: &Address) -> Address {
    user_profile_address(who).unwrap().0
}

fn todo_key(who: &Address, idx: u8) -> Address {
    todo_address(who, idx).unwrap().0
}

fn put<T>(records: &mut HashMap<Address, T>, key: Address, value: Option<T>) {
    match value {
        Some(record) => {
            records.insert(key, record);
        }
        None => {
            records.remove(&key);
        }
    }
}

fn init(store: &mut Store, who: Address, pk: Address) -> Result<(), TodoError> {
    let mut ctx = InitializeUser {
        authority: who,
        user_profile_key: pk,
        user_profile: store.profiles.get(&pk).copied(),
    };
    let r = initialize_user(&mut ctx);
    put(&mut store.profiles, pk, ctx.user_profile);
    r
}

fn add(store: &mut Store, who: Address, pk: Address, tk: Address, text: &str) -> Result<(), TodoError> {
    let mut ctx = AddTodo {
        authority: who,
        user_profile_key: pk,
        user_profile: store.profiles.get(&pk).copied(),
        todo_account_key: tk,
        todo_account: store.todos.get(&tk).cloned(),
    };
    let r = add_todo(&mut ctx, text.to_string());
    put(&mut store.profiles, pk, ctx.user_profile);
    put(&mut store.todos, tk, ctx.todo_account);
    r
}

fn mark(store: &mut Store, who: Address, pk: Address, tk: Address, idx: u8) -> Result<(), TodoError> {
    let mut ctx = MarkTodo {
        authority: who,
        user_profile_key: pk,
        user_profile: store.profiles.get(&pk).copied(),
        todo_account_key: tk,
        todo_account: store.todos.get(&tk).cloned(),
    };
    let r = mark_todo(&mut ctx, idx);
    put(&mut store.profiles, pk, ctx.user_profile);
    put(&mut store.todos, tk, ctx.todo_account);
    r
}

fn remove(store: &mut Store, who: Address, pk: Address, tk: Address, idx: u8) -> Result<(), TodoError> {
    let mut ctx = RemoveTodo {
        authority: who,
        user_profile_key: pk,
        user_profile: store.profiles.get(&pk).copied(),
        todo_account_key: tk,
        todo_account: store.todos.get(&tk).cloned(),
    };
    let r = remove_todo(&mut ctx, idx);
    put(&mut store.profiles, pk, ctx.user_profile);
    put(&mut store.todos, tk, ctx.todo_account);
    r
}

fn todos_of(store: &Store, who: &Address) -> usize {
    store.todos.values().filter(|t| t.authority == *who).count()
}

#[test]
fn two_owners_share_a_ledger() {
    let a = owner(1);
    let b = owner(2);
    let (pa, pb) = (profile_key(&a), profile_key(&b));
    let mut store = Store { profiles: HashMap::new(), todos: HashMap::new() };

    assert_eq!(add(&mut store, a, pa, todo_key(&a, 0), "too early"), Err(TodoError::NotAllowed));
    assert_eq!(init(&mut store, a, pa), Ok(()));
    assert_eq!(init(&mut store, b, pb), Ok(()));
    assert_eq!(init(&mut store, a, pa), Err(TodoError::NotAllowed));
    assert_eq!(init(&mut store, b, pa), Err(TodoError::NotAllowed));

    assert_eq!(add(&mut store, a, pa, todo_key(&a, 0), "a0"), Ok(()));
    assert_eq!(add(&mut store, b, pb, todo_key(&b, 0), "b0"), Ok(()));
    assert_eq!(add(&mut store, a, pa, todo_key(&a, 1), "a1"), Ok(()));
    assert_eq!(add(&mut store, a, pa, todo_key(&a, 2), "a2"), Ok(()));
    assert_eq!(store.todos[&todo_key(&a, 2)].idx, 2);
    assert_eq!(store.todos[&todo_key(&b, 0)].idx, 0);

    let before_profiles = store.profiles.clone();
    let before_todos = store.todos.clone();
    assert_eq!(remove(&mut store, b, pa, todo_key(&a, 0), 0), Err(TodoError::NotAllowed));
    assert_eq!(remove(&mut store, b, pb, todo_key(&a, 0), 0), Err(TodoError::NotAllowed));
    assert_eq!(mark(&mut store, b, pb, todo_key(&a, 1), 1), Err(TodoError::NotAllowed));
    assert_eq!(add(&mut store, b, pa, todo_key(&a, 3), "b in a"), Err(TodoError::NotAllowed));
    assert_eq!(remove(&mut store, a, pa, todo_key(&a, 7), 7), Err(TodoError::NotAllowed));
    assert_eq!(store.profiles, before_profiles);
    assert_eq!(store.todos, before_todos);

    assert_eq!(mark(&mut store, a, pa, todo_key(&a, 0), 0), Ok(()));
    assert_eq!(mark(&mut store, a, pa, todo_key(&a, 0), 0), Err(TodoError::AlreadyMarked));
    assert!(store.todos[&todo_key(&a, 0)].marked);
    assert_eq!(remove(&mut store, a, pa, todo_key(&a, 1), 1), Ok(()));
    assert_eq!(remove(&mut store, a, pa, todo_key(&a, 1), 1), Err(TodoError::NotAllowed));
    assert_eq!(remove(&mut store, a, pa, todo_key(&a, 0), 0), Ok(()));

    assert_eq!(store.profiles[&pa], UserProfile { authority: a, last_todo: 3, todo_count: 1 });
    assert_eq!(store.profiles[&pb], UserProfile { authority: b, last_todo: 1, todo_count: 1 });
    assert_eq!(todos_of(&store, &a), 1);
    assert_eq!(todos_of(&store, &b), 1);

    assert_eq!(add(&mut store, a, pa, todo_key(&a, 1), "reuse"), Err(TodoError::NotAllowed));
    assert_eq!(add(&mut store, a, pa, todo_key(&a, 3), "a3"), Ok(()));
    assert_eq!(store.todos[&todo_key(&a, 3)].idx, 3);
    assert_eq!(store.profiles[&pa], UserProfile { authority: a, last_todo: 4, todo_count: 2 });
    assert_eq!(todos_of(&store, &a), 2);
}

#[test]
fn an_owner_can_create_255_todos_and_no_more() {
    let a = owner(9);
    let pa = profile_key(&a);
    let mut store = Store { profiles: HashMap::new(), todos: HashMap::new() };
    assert_eq!(init(&mut store, a, pa), Ok(()));
    for i in 0u8..255 {
        assert_eq!(add(&mut store, a, pa, todo_key(&a, i), "x"), Ok(()));
        assert_eq!(store.todos[&todo_key(&a, i)].idx, i);
        assert_eq!(store.profiles[&pa].last_todo, i + 1);
    }
    assert_eq!(store.profiles[&pa], UserProfile { authority: a, last_todo: 255, todo_count: 255 });
    assert_eq!(add(&mut store, a, pa, todo_key(&a, 255), "x"), Err(TodoError::MathOverflow));
    assert_eq!(store.todos.len(), 255);
    assert!(!store.todos.contains_key(&todo_key(&a, 255)));
    assert_eq!(remove(&mut store, a, pa, todo_key(&a, 10), 10), Ok(()));
    assert_eq!(add(&mut store, a, pa, todo_key(&a, 255), "x"), Err(TodoError::MathOverflow));
    assert_eq!(store.profiles[&pa], UserProfile { authority: a, last_todo: 255, todo_count: 254 });
}
