use vibe_island::shell::{
    cleanup_next, first_index_with_id, hide_instead_of_close, join_hook_results, ssh_port,
    CleanupAction, CleanupEvent,
};
use vibe_island::places::{
    bypass_flag_change, bypass_flag_dir, pick_base_dir, todo_file_path, BypassFlagChange,
};
use vibe_island::todo::{
    add_todo, add_todo_with, append_todo, clear_completed, delete_todo, get_todos, restore_state, toggle_todo,
    TodoError, TodoItem, TodoState,
};

fn item(id: &str, text: &str, completed: bool, created_at: i64) -> TodoItem {
    TodoItem { id: id.to_string(), text: text.to_string(), completed, created_at }
}

fn snapshot(state: &TodoState) -> Vec<(String, String, bool, i64)> {
    state
        .todos
        .iter()
        .map(|t| (t.id.clone(), t.text.clone(), t.completed, t.created_at))
        .collect()
}

fn sample() -> TodoState {
    TodoState {
        todos: vec![
            item("a", "write report", false, 10),
            item("b", "buy milk", true, 20),
            item("a", "duplicate id", false, 30),
            item("c", "call home", true, 40),
        ],
    }
}

fn is_lower_hex(c: char) -> bool {
    c.is_ascii_digit() || ('a'..='f').contains(&c)
}

#[test]
fn default_state_is_empty() {
    let state = TodoState::default();
    assert!(state.todos.is_empty());
}

#[test]
fn add_todo_appends_an_open_entry_with_a_v4_id() {
    let mut state = sample();
    let before = snapshot(&state);
    let added = add_todo(&mut state, "new task".to_string()).unwrap();
    assert_eq!(added.text, "new task");
    assert!(!added.completed);
    assert_eq!(state.todos.len(), before.len() + 1);
    assert_eq!(snapshot(&state)[..before.len()], before[..]);
    let last = state.todos.last().unwrap();
    assert_eq!(last.id, added.id);
    assert_eq!(last.text, "new task");
    assert_eq!(last.created_at, added.created_at);

    let chars: Vec<char> = added.id.chars().collect();
    assert_eq!(chars.len(), 36);
    for (i, c) in chars.iter().enumerate() {
        if i == 8 || i == 13 || i == 18 || i == 23 {
            assert_eq!(*c, '-');
        } else {
            assert!(is_lower_hex(*c), "{}", added.id);
        }
    }
    assert_eq!(chars[14], '4');
    assert!(matches!(chars[19], '8' | '9' | 'a' | 'b'));
}

#[test]
fn add_todo_gives_distinct_ids() {
    let mut state = TodoState::default();
    let first = add_todo(&mut state, "one".to_string()).unwrap();
    let second = add_todo(&mut state, "two".to_string()).unwrap();
    assert_ne!(first.id, second.id);
    assert_eq!(state.todos.len(), 2);
    assert_eq!(state.todos[0].text, "one");
    assert_eq!(state.todos[1].text, "two");
}

#[test]
fn append_todo_keeps_the_given_fields() {
    let mut state = TodoState::default();
    let added = append_todo(&mut state, "id-1".to_string(), "text".to_string(), 1234);
    assert_eq!(added.id, "id-1");
    assert_eq!(added.text, "text");
    assert!(!added.completed);
    assert_eq!(added.created_at, 1234);
    assert_eq!(snapshot(&state), vec![("id-1".to_string(), "text".to_string(), false, 1234)]);
}

#[test]
fn get_todos_copies_every_entry_in_order() {
    let state = sample();
    let copy = get_todos(&state);
    let copied: Vec<(String, String, bool, i64)> =
        copy.iter().map(|t| (t.id.clone(), t.text.clone(), t.completed, t.created_at)).collect();
    assert_eq!(copied, snapshot(&state));
}

#[test]
fn toggle_flips_only_the_first_match() {
    let mut state = sample();
    let updated = toggle_todo(&mut state, &"a".to_string()).unwrap();
    assert_eq!(updated.id, "a");
    assert_eq!(updated.text, "write report");
    assert!(updated.completed);
    assert!(state.todos[0].completed);
    assert!(state.todos[1].completed);
    assert!(!state.todos[2].completed);
    assert!(state.todos[3].completed);
}

#[test]
fn toggle_twice_restores_the_list() {
    let mut state = sample();
    let before = snapshot(&state);
    let first = toggle_todo(&mut state, &"b".to_string()).unwrap();
    assert!(!first.completed);
    let second = toggle_todo(&mut state, &"b".to_string()).unwrap();
    assert!(second.completed);
    assert_eq!(snapshot(&state), before);
}

#[test]
fn toggle_unknown_id_is_refused_and_changes_nothing() {
    let mut state = sample();
    let before = snapshot(&state);
    let result = toggle_todo(&mut state, &"missing".to_string());
    match result {
        Err(e) => {
            assert_eq!(e, TodoError::NotFound);
            assert_eq!(e.message(), "Todo not found");
        }
        Ok(_) => panic!("an unknown id was toggled"),
    }
    assert_eq!(snapshot(&state), before);
}

#[test]
fn toggle_on_empty_list_is_refused() {
    let mut state = TodoState::default();
    assert!(toggle_todo(&mut state, &"a".to_string()).is_err());
    assert!(state.todos.is_empty());
}

#[test]
fn delete_drops_every_match_and_keeps_order() {
    let mut state = sample();
    delete_todo(&mut state, &"a".to_string());
    let ids: Vec<String> = state.todos.iter().map(|t| t.id.clone()).collect();
    assert_eq!(ids, vec!["b".to_string(), "c".to_string()]);
    assert_eq!(state.todos[0].text, "buy milk");
    assert_eq!(state.todos[1].created_at, 40);
}

#[test]
fn delete_twice_is_delete_once() {
    let mut once = sample();
    delete_todo(&mut once, &"c".to_string());
    let mut twice = sample();
    delete_todo(&mut twice, &"c".to_string());
    delete_todo(&mut twice, &"c".to_string());
    assert_eq!(snapshot(&once), snapshot(&twice));
    assert_eq!(once.todos.len(), 3);
}

#[test]
fn delete_unknown_id_changes_nothing() {
    let mut state = sample();
    let before = snapshot(&state);
    delete_todo(&mut state, &"zzz".to_string());
    assert_eq!(snapshot(&state), before);
}

#[test]
fn delete_undoes_append_of_a_fresh_id() {
    let mut state = sample();
    let before = snapshot(&state);
    let added = add_todo(&mut state, "temporary".to_string()).unwrap();
    delete_todo(&mut state, &added.id);
    assert_eq!(snapshot(&state), before);
}

#[test]
fn clear_completed_counts_and_drops_the_completed() {
    let mut state = sample();
    let removed = clear_completed(&mut state);
    assert_eq!(removed, 2);
    let texts: Vec<String> = state.todos.iter().map(|t| t.text.clone()).collect();
    assert_eq!(texts, vec!["write report".to_string(), "duplicate id".to_string()]);
    assert!(state.todos.iter().all(|t| !t.completed));
}

#[test]
fn clear_completed_twice_finds_nothing_the_second_time() {
    let mut state = sample();
    assert_eq!(clear_completed(&mut state), 2);
    let after_first = snapshot(&state);
    assert_eq!(clear_completed(&mut state), 0);
    assert_eq!(snapshot(&state), after_first);
}

#[test]
fn clear_completed_on_empty_list_returns_zero() {
    let mut state = TodoState::default();
    assert_eq!(clear_completed(&mut state), 0);
    assert!(state.todos.is_empty());
}

#[test]
fn clear_completed_after_toggle() {
    let mut state = sample();
    toggle_todo(&mut state, &"a".to_string()).unwrap();
    assert_eq!(clear_completed(&mut state), 3);
    assert_eq!(snapshot(&state), vec![("a".to_string(), "duplicate id".to_string(), false, 30)]);
}

#[test]
fn restore_state_falls_back_to_empty() {
    assert!(restore_state(None).todos.is_empty());
    let restored = restore_state(Some(sample()));
    assert_eq!(snapshot(&restored), snapshot(&sample()));
}

#[test]
fn base_dir_prefers_home_then_local_data_then_fallback() {
    assert_eq!(pick_base_dir(Some("home"), Some("data"), "."), "home");
    assert_eq!(pick_base_dir(None, Some("data"), "."), "data");
    assert_eq!(pick_base_dir(None::<&str>, None, "."), ".");
}

#[test]
fn bypass_flag_is_written_or_removed() {
    match bypass_flag_change(true) {
        BypassFlagChange::Write(contents) => {
            assert_eq!(contents, "CLAUDE_BYPASS_PERMISSIONS=1")
        }
        BypassFlagChange::Remove => panic!("enabling removed the flag"),
    }
    assert!(matches!(bypass_flag_change(false), BypassFlagChange::Remove));
}

#[test]
fn cloned_state_is_independent() {
    let state = sample();
    let mut copy = state.clone();
    assert_eq!(snapshot(&copy), snapshot(&state));
    delete_todo(&mut copy, &"a".to_string());
    assert_eq!(copy.todos.len(), 2);
    assert_eq!(state.todos.len(), 4);
}

#[test]
fn files_live_under_the_vibe_island_directory() {
    assert_eq!(todo_file_path(), ".vibe-island/todos.json");
    assert_eq!(bypass_flag_dir(), ".vibe-island/bypass-flags");
}

#[test]
fn ssh_port_defaults_to_22() {
    assert_eq!(ssh_port(None), 22);
    assert_eq!(ssh_port(Some(2222)), 2222);
}

#[test]
fn idle_cleanup_runs_only_with_a_time_out_and_announces_only_removals() {
    assert!(matches!(cleanup_next(CleanupEvent::Woke { timeout_secs: 0 }), CleanupAction::Sleep));
    assert!(matches!(
        cleanup_next(CleanupEvent::Woke { timeout_secs: 300 }),
        CleanupAction::CleanIdle { timeout_secs: 300 }
    ));
    assert!(matches!(cleanup_next(CleanupEvent::Cleaned { removed: 0 }), CleanupAction::Sleep));
    assert!(matches!(cleanup_next(CleanupEvent::Cleaned { removed: 3 }), CleanupAction::Announce));
}

#[test]
fn first_session_with_an_id_is_found() {
    let ids = vec!["s1".to_string(), "s2".to_string(), "s2".to_string()];
    assert_eq!(first_index_with_id(&ids, &"s2".to_string()), Some(1));
    assert_eq!(first_index_with_id(&ids, &"s1".to_string()), Some(0));
    assert_eq!(first_index_with_id(&ids, &"s3".to_string()), None);
    assert_eq!(first_index_with_id(&vec![], &"s1".to_string()), None);
}

#[test]
fn only_the_notch_window_is_hidden_on_close() {
    assert!(hide_instead_of_close("notch"));
    assert!(!hide_instead_of_close("main"));
    assert!(!hide_instead_of_close("notch2"));
}

#[test]
fn hook_results_are_joined_by_newlines() {
    assert_eq!(join_hook_results(&vec![]), "");
    assert_eq!(join_hook_results(&vec!["one".to_string()]), "one");
    let lines = vec!["installed a".to_string(), "installed b".to_string(), "".to_string()];
    assert_eq!(join_hook_results(&lines), "installed a\ninstalled b\n");
}

#[test]
fn add_todo_with_bytes_builds_the_v4_id() {
    let mut state = TodoState::default();
    let bytes: [u8; 16] = [0, 1, 2, 3, 4, 5, 6, 7, 8, 9, 10, 11, 12, 13, 14, 15];
    let added = add_todo_with(&mut state, Some(bytes), "task".to_string(), 77).unwrap();
    assert_eq!(added.id, "00010203-0405-4607-8809-0a0b0c0d0e0f");
    assert_eq!(added.text, "task");
    assert_eq!(added.created_at, 77);
    assert!(!added.completed);
    let added = add_todo_with(&mut state, Some([0xff; 16]), "other".to_string(), 78).unwrap();
    assert_eq!(added.id, "ffffffff-ffff-4fff-bfff-ffffffffffff");
    assert_eq!(state.todos.len(), 2);
}

#[test]
fn add_todo_without_random_bytes_is_refused_and_changes_nothing() {
    let mut state = sample();
    let before = snapshot(&state);
    let result = add_todo_with(&mut state, None, "task".to_string(), 1);
    match result {
        Err(e) => {
            assert_eq!(e, TodoError::NoRandomness);
            assert_eq!(e.message(), "could not retrieve random bytes for uuid");
        }
        Ok(_) => panic!("an entry was added without an id"),
    }
    assert_eq!(snapshot(&state), before);
}
