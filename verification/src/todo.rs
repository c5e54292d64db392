//! Todo entries and the operations on the list of them.

use vstd::prelude::*;

use crate::fresh::{
    current_time_millis, is_uuid_v4_text, lemma_uuid_v4_text_shape, random_uuid_bytes,
    uuid_v4_text, uuid_v4_text_from,
};

verus! {

/// What a todo entry is, as a mathematical value.
pub struct TodoEntry {
    pub id: Seq<char>,
    pub text: Seq<char>,
    pub completed: bool,
    pub created_at: i64,
}

impl TodoEntry {
    /// The same entry with its completion flag turned over.
    pub open spec fn flipped(self) -> TodoEntry {
        TodoEntry { completed: !self.completed, ..self }
    }
}

/// One entry of the todo list.
#[derive(Debug)]
pub struct TodoItem {
    pub id: String,
    pub text: String,
    pub completed: bool,
    /// Milliseconds since the Unix epoch at which the entry was made.
    pub created_at: i64,
}

impl View for TodoItem {
    type V = TodoEntry;

    open spec fn view(&self) -> TodoEntry {
        TodoEntry {
            id: self.id@,
            text: self.text@,
            completed: self.completed,
            created_at: self.created_at,
        }
    }
}

impl Clone for TodoItem {
    fn clone(&self) -> (copy: Self)
        ensures
            copy@ == self@,
    {
        TodoItem {
            id: self.id.clone(),
            text: self.text.clone(),
            completed: self.completed,
            created_at: self.created_at,
        }
    }
}

/// The entries of a vector of items, in order.
pub open spec fn entries(items: Seq<TodoItem>) -> Seq<TodoEntry> {
    items.map_values(|t: TodoItem| t@)
}

/// The whole todo list, in the order in which entries were added.
#[derive(Debug)]
pub struct TodoState {
    pub todos: Vec<TodoItem>,
}

impl View for TodoState {
    type V = Seq<TodoEntry>;

    open spec fn view(&self) -> Seq<TodoEntry> {
        entries(self.todos@)
    }
}

impl Default for TodoState {
    fn default() -> (state: Self)
        ensures
            state@ == Seq::<TodoEntry>::empty(),
    {
        let state = TodoState { todos: Vec::new() };
        assert(state@ =~= Seq::<TodoEntry>::empty());
        state
    }
}

/// Why a request on the todo list was refused.
#[derive(Debug, Clone, Copy, PartialEq, Eq, Structural)]
pub enum TodoError {
    /// No entry has the requested id.
    NotFound,
    /// The operating system gave no random bytes to make a new id from.
    NoRandomness,
}

impl TodoError {
    /// The message that the error is reported with.
    pub fn message(&self) -> (text: String)
        ensures
            text@ == match self {
                TodoError::NotFound => "Todo not found"@,
                TodoError::NoRandomness => "could not retrieve random bytes for uuid"@,
            },
    {
        match self {
            TodoError::NotFound => "Todo not found".to_owned(),
            TodoError::NoRandomness => "could not retrieve random bytes for uuid".to_owned(),
        }
    }
}

/// Some entry of `s` has the id `id`.
pub open spec fn has_id(s: Seq<TodoEntry>, id: Seq<char>) -> bool {
    exists|i: int| 0 <= i < s.len() && #[trigger] s[i].id == id
}

/// `i` is the position of the first entry of `s` with the id `id`.
pub open spec fn is_first_with_id(s: Seq<TodoEntry>, id: Seq<char>, i: int) -> bool {
    &&& 0 <= i < s.len()
    &&& s[i].id == id
    &&& forall|j: int| 0 <= j < i ==> #[trigger] s[j].id != id
}

/// The position of the first entry of `s` with the id `id`
/// (meaningful where `has_id(s, id)`).
pub open spec fn first_index_of(s: Seq<TodoEntry>, id: Seq<char>) -> int {
    choose|i: int| is_first_with_id(s, id, i)
}

/// The list after the first entry with the id `id` is toggled; the list
/// itself where no entry has that id.
pub open spec fn toggled(s: Seq<TodoEntry>, id: Seq<char>) -> Seq<TodoEntry> {
    if has_id(s, id) {
        let i = first_index_of(s, id);
        s.update(i, s[i].flipped())
    } else {
        s
    }
}

/// The list without any entry that has the id `id`, the others in order.
pub open spec fn without_id(s: Seq<TodoEntry>, id: Seq<char>) -> Seq<TodoEntry> {
    s.filter(|t: TodoEntry| t.id != id)
}

/// The entries of the list that are not completed, in order.
pub open spec fn pending(s: Seq<TodoEntry>) -> Seq<TodoEntry> {
    s.filter(|t: TodoEntry| !t.completed)
}

/// The entries of the list that are completed, in order.
pub open spec fn done(s: Seq<TodoEntry>) -> Seq<TodoEntry> {
    s.filter(|t: TodoEntry| t.completed)
}

/// How many entries of the list are completed.
pub open spec fn completed_count(s: Seq<TodoEntry>) -> nat {
    done(s).len()
}

/// Where `i` is a position with the id `id` and none comes before it, `i`
/// is the first such position.
pub proof fn lemma_first_index_is_unique(s: Seq<TodoEntry>, id: Seq<char>, i: int)
    requires
        is_first_with_id(s, id, i),
    ensures
        has_id(s, id),
        first_index_of(s, id) == i,
{
    assert(s[i].id == id);
    let k = first_index_of(s, id);
    assert(is_first_with_id(s, id, k));
    if k < i {
        assert(s[k].id != id);
    }
    if k > i {
        assert(s[i].id != id);
    }
}

/// Where some entry has the id `id`, there is a first one.
pub proof fn lemma_has_first(s: Seq<TodoEntry>, id: Seq<char>)
    requires
        has_id(s, id),
    ensures
        is_first_with_id(s, id, first_index_of(s, id)),
{
    let k = choose|k: int| 0 <= k < s.len() && #[trigger] s[k].id == id;
    lemma_first_below(s, id, k);
}

proof fn lemma_first_below(s: Seq<TodoEntry>, id: Seq<char>, k: int)
    requires
        0 <= k < s.len(),
        s[k].id == id,
    ensures
        exists|i: int| is_first_with_id(s, id, i),
    decreases k,
{
    if exists|j: int| 0 <= j < k && #[trigger] s[j].id == id {
        let j = choose|j: int| 0 <= j < k && #[trigger] s[j].id == id;
        lemma_first_below(s, id, j);
    } else {
        assert(is_first_with_id(s, id, k));
    }
}

/// The entries of the pushed vector are those of the vector, then the new one.
proof fn lemma_entries_push(items: Seq<TodoItem>, item: TodoItem)
    ensures
        entries(items.push(item)) == entries(items).push(item@),
{
    assert(entries(items.push(item)) =~= entries(items).push(item@));
}

/// A copy of every entry of the list, in order.
pub fn get_todos(state: &TodoState) -> (todos: Vec<TodoItem>)
    ensures
        entries(todos@) == state@,
{
    let mut todos: Vec<TodoItem> = Vec::new();
    let n = state.todos.len();
    for i in 0..n
        invariant
            n == state.todos.len(),
            entries(todos@) == state@.take(i as int),
    {
        let item = state.todos[i].clone();
        proof {
            lemma_entries_push(todos@, item);
            assert(state@.take(i + 1) =~= state@.take(i as int).push(item@));
        }
        todos.push(item);
    }
    assert(state@.take(n as int) =~= state@);
    todos
}

/// Appends an entry with the given id, text and time of making, not
/// completed, and returns a copy of it.
pub fn append_todo(state: &mut TodoState, id: String, text: String, created_at: i64) -> (item:
    TodoItem)
    ensures
        item@ == (TodoEntry { id: id@, text: text@, completed: false, created_at }),
        final(state)@ == old(state)@.push(item@),
{
    let item = TodoItem { id, text, completed: false, created_at };
    let copy = item.clone();
    proof {
        lemma_entries_push(state.todos@, item);
    }
    state.todos.push(item);
    copy
}

/// Appends a new, not completed entry with the given text and time of
/// making, whose id is the version 4 UUID made from the random bytes, and
/// returns a copy of it; refuses with `NoRandomness`, changing nothing, where
/// there are no random bytes.
pub fn add_todo_with(
    state: &mut TodoState,
    random_bytes: Option<[u8; 16]>,
    text: String,
    created_at: i64,
) -> (result: Result<TodoItem, TodoError>)
    ensures
        match random_bytes {
            Some(bytes) => result matches Ok(item) && item@ == (TodoEntry {
                id: uuid_v4_text(bytes@),
                text: text@,
                completed: false,
                created_at,
            }) && final(state)@ == old(state)@.push(item@),
            None => result == Err::<TodoItem, TodoError>(TodoError::NoRandomness) && final(state)@
                == old(state)@,
        },
{
    match random_bytes {
        Some(bytes) => {
            let id = uuid_v4_text_from(bytes);
            Ok(append_todo(state, id, text, created_at))
        },
        None => Err(TodoError::NoRandomness),
    }
}

/// Appends a new, not completed entry with the given text, a fresh random
/// version 4 UUID as its id and the current time, and returns a copy of it;
/// refuses with `NoRandomness`, changing nothing, where the operating system
/// gives no random bytes.
pub fn add_todo(state: &mut TodoState, text: String) -> (result: Result<TodoItem, TodoError>)
    ensures
        match result {
            Ok(item) => {
                &&& is_uuid_v4_text(item@.id)
                &&& exists|bytes: Seq<u8>|
                    bytes.len() == 16 && item@.id == #[trigger] uuid_v4_text(bytes)
                &&& item@.text == text@
                &&& !item@.completed
                &&& final(state)@ == old(state)@.push(item@)
            },
            Err(e) => e == TodoError::NoRandomness && final(state)@ == old(state)@,
        },
{
    let random_bytes = random_uuid_bytes();
    let created_at = current_time_millis();
    let result = add_todo_with(state, random_bytes, text, created_at);
    proof {
        if let Some(bytes) = random_bytes {
            lemma_uuid_v4_text_shape(bytes@);
        }
    }
    result
}

/// Turns over the completion flag of the first entry with the id `id` and
/// returns a copy of it as it is now; refuses with `NotFound`, changing
/// nothing, where no entry has that id.
pub fn toggle_todo(state: &mut TodoState, id: &String) -> (result: Result<TodoItem, TodoError>)
    ensures
        final(state)@ == toggled(old(state)@, id@),
        result is Ok <==> has_id(old(state)@, id@),
        result is Ok ==> is_first_with_id(old(state)@, id@, first_index_of(old(state)@, id@)),
        result matches Ok(item) ==> item@ == final(state)@[first_index_of(old(state)@, id@)],
        result matches Err(e) ==> e == TodoError::NotFound,
{
    let n = state.todos.len();
    let mut i: usize = 0;
    while i < n
        invariant
            n == state.todos.len(),
            state@ == old(state)@,
            i <= n,
            forall|j: int| 0 <= j < i ==> #[trigger] state@[j].id != id@,
        decreases n - i,
    {
        if state.todos[i].id == *id {
            proof {
                assert(state@[i as int].id == id@);
                assert(is_first_with_id(old(state)@, id@, i as int));
                lemma_first_index_is_unique(old(state)@, id@, i as int);
            }
            let mut item = state.todos[i].clone();
            item.completed = !item.completed;
            let copy = item.clone();
            state.todos.set(i, item);
            proof {
                assert(state@ =~= old(state)@.update(i as int, old(state)@[i as int].flipped()));
            }
            return Ok(copy);
        }
        i = i + 1;
    }
    proof {
        assert forall|j: int| 0 <= j < old(state)@.len() implies #[trigger] old(state)@[j].id
            != id@ by {
            assert(state@[j].id != id@);
        }
    }
    Err(TodoError::NotFound)
}

/// Drops every entry with the id `id`, keeping the others in order.
pub fn delete_todo(state: &mut TodoState, id: &String)
    ensures
        final(state)@ == without_id(old(state)@, id@),
{
    let mut kept: Vec<TodoItem> = Vec::new();
    let n = state.todos.len();
    for i in 0..n
        invariant
            n == state.todos.len(),
            state@ == old(state)@,
            entries(kept@) == without_id(state@.take(i as int), id@),
    {
        proof {
            reveal(Seq::filter);
            assert(state@.take(i + 1).drop_last() =~= state@.take(i as int));
            assert(state@.take(i + 1).last() == state@[i as int]);
        }
        if !(state.todos[i].id == *id) {
            let item = state.todos[i].clone();
            proof {
                lemma_entries_push(kept@, item);
            }
            kept.push(item);
        }
    }
    assert(state@.take(n as int) =~= state@);
    state.todos = kept;
}

/// Drops every completed entry, keeping the others in order, and returns how
/// many were dropped.
pub fn clear_completed(state: &mut TodoState) -> (count: usize)
    ensures
        final(state)@ == pending(old(state)@),
        count == completed_count(old(state)@),
{
    let mut kept: Vec<TodoItem> = Vec::new();
    let mut count: usize = 0;
    let n = state.todos.len();
    for i in 0..n
        invariant
            n == state.todos.len(),
            state@ == old(state)@,
            entries(kept@) == pending(state@.take(i as int)),
            count == done(state@.take(i as int)).len(),
            count <= i,
    {
        proof {
            reveal(Seq::filter);
            assert(state@.take(i + 1).drop_last() =~= state@.take(i as int));
            assert(state@.take(i + 1).last() == state@[i as int]);
        }
        if state.todos[i].completed {
            count = count + 1;
        } else {
            let item = state.todos[i].clone();
            proof {
                lemma_entries_push(kept@, item);
            }
            kept.push(item);
        }
    }
    assert(state@.take(n as int) =~= state@);
    state.todos = kept;
    count
}

impl Clone for TodoState {
    fn clone(&self) -> (copy: Self)
        ensures
            copy@ == self@,
    {
        TodoState { todos: get_todos(self) }
    }
}

/// The list read back from storage, or the empty list where nothing could be
/// read back.
pub fn restore_state(stored: Option<TodoState>) -> (state: TodoState)
    ensures
        state@ == match stored {
            Some(s) => s@,
            None => Seq::<TodoEntry>::empty(),
        },
{
    match stored {
        Some(s) => s,
        None => TodoState::default(),
    }
}

} // verus!
