# vibe_island

The todo list of the Vibe Island notch app, verified with Verus.

- `src/todo.rs`: todo entries, the list, and the operations on it (add,
  toggle, delete, clear completed, copy, restore), each with a contract over
  the list as a sequence of entries.
- `src/laws.rs`: what holds across operations (toggling twice restores the
  list, deleting is idempotent and undoes an append, clearing counts and
  drops exactly the completed entries, and so on).
- `src/fresh.rs`: the random bytes, the version 4 UUID text made from them,
  and the clock reading that a new entry gets.
- `src/places.rs`: which directory the app's files live under, and what the
  bypass flag file of a session holds.
- `src/shell.rs`: the small decisions of the app shell: the SSH port, the steps
  of the idle clean-up loop, finding a session by id, the hook report, the
  notch window.
- `app/`: the Tauri commands, the lock around the shared list, and reading
  and writing `~/.vibe-island/todos.json`.
- `tests/`: tests of the library on concrete lists.
