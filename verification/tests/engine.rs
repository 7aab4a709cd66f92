use console_core::buffer::InputBuffer;
use console_core::command_table::CommandTable;
use console_core::console::{
    apply_action, console_key_pressed, recompute_predictions, submit, toggle_open, Action,
    ConsoleConfiguration, ConsoleKey, ConsoleOpen, ConsoleState,
};
use console_core::index::CompletionIndex;

fn table_of(names: &[&str]) -> CommandTable {
    let mut t = CommandTable::new();
    for n in names {
        t.register(n.to_string());
    }
    t
}

fn index_of(table: &CommandTable, cfg: &ConsoleConfiguration) -> CompletionIndex {
    CompletionIndex::build(table, &cfg.arg_completions)
}

fn type_line(
    state: &mut ConsoleState,
    cfg: &ConsoleConfiguration,
    table: &CommandTable,
    idx: &CompletionIndex,
    line: &str,
) {
    for c in line.chars() {
        apply_action(state, cfg, table, Some(idx), Action::InsertChar(c));
    }
}

#[test]
fn test_console_key_pressed_scan_code() {
    let config = vec![ConsoleKey::Native(41)];
    let result = console_key_pressed(true, ConsoleKey::Native(41), &config);
    assert!(result);
}

#[test]
fn test_console_wrong_key_pressed_scan_code() {
    let config = vec![ConsoleKey::Native(41)];
    let result = console_key_pressed(true, ConsoleKey::Native(42), &config);
    assert!(!result);
}

#[test]
fn test_console_key_pressed_key_code() {
    let config = vec![ConsoleKey::Named(192)];
    let result = console_key_pressed(true, ConsoleKey::Named(192), &config);
    assert!(result);
}

#[test]
fn test_console_wrong_key_pressed_key_code() {
    let config = vec![ConsoleKey::Named(192)];
    let result = console_key_pressed(true, ConsoleKey::Named(65), &config);
    assert!(!result);
}

#[test]
fn test_console_key_right_key_but_not_pressed() {
    let config = vec![ConsoleKey::Named(192)];
    let result = console_key_pressed(false, ConsoleKey::Named(192), &config);
    assert!(!result);
}

#[test]
fn test_toggle_open() {
    let mut open = ConsoleOpen { open: false };
    toggle_open(&mut open, true, false);
    assert!(open.open);
    // closing works even while another widget captures the keyboard
    toggle_open(&mut open, true, true);
    assert!(!open.open);
    // but opening then does not
    toggle_open(&mut open, true, true);
    assert!(!open.open);
    toggle_open(&mut open, false, false);
    assert!(!open.open);
}

#[test]
fn test_multibyte_insert_delete() {
    let mut b = InputBuffer::new();
    for c in "café".chars() {
        b.insert_char(c);
    }
    assert_eq!(b.char_count(), 4);
    assert_eq!(b.text(), "café");
    b.move_left();
    let deleted = b.delete_before_cursor();
    assert!(deleted);
    assert_eq!(b.text(), "caé");
    assert_eq!(b.cursor, 2);
    b.insert_char('x');
    assert_eq!(b.text(), "caxé");
    assert_eq!(b.cursor, 3);
}

#[test]
fn test_cursor_round_trip() {
    let mut b = InputBuffer::new();
    for c in "ab".chars() {
        b.insert_char(c);
    }
    b.move_left();
    assert_eq!(b.cursor, 1);
    b.move_left();
    b.move_right();
    assert_eq!(b.cursor, 1);
    // clamped at both ends
    b.move_left();
    b.move_left();
    assert_eq!(b.cursor, 0);
    b.move_right();
    b.move_right();
    b.move_right();
    assert_eq!(b.cursor, 2);
}

#[test]
fn test_backspace_at_start_noop() {
    let mut b = InputBuffer::new();
    b.insert_char('a');
    b.move_left();
    let deleted = b.delete_before_cursor();
    assert!(!deleted);
    assert_eq!(b.text(), "a");
    assert_eq!(b.cursor, 0);
}

#[test]
fn test_blank_submit_empty_line() {
    let cfg = ConsoleConfiguration::default();
    let table = table_of(&["help"]);
    let mut state = ConsoleState::new();
    let r = submit(&mut state, &cfg, &table);
    assert!(r.is_none());
    assert_eq!(state.scrollback_lines().len(), 1);
    assert_eq!(state.scrollback_lines()[0], "");
    assert_eq!(state.history.len(), 1);
}

#[test]
fn test_blank_submit_whitespace_line() {
    let cfg = ConsoleConfiguration::default();
    let table = table_of(&["help"]);
    let idx = index_of(&table, &cfg);
    let mut state = ConsoleState::new();
    type_line(&mut state, &cfg, &table, &idx, "   ");
    let r = submit(&mut state, &cfg, &table);
    assert!(r.is_none());
    assert_eq!(state.scrollback_lines().len(), 1);
    assert_eq!(state.scrollback_lines()[0], "");
    assert_eq!(state.history.len(), 1);
    assert_eq!(state.buffer_text(), "");
}

#[test]
fn test_submit_registered_command() {
    let cfg = ConsoleConfiguration::default();
    let table = table_of(&["help"]);
    let idx = index_of(&table, &cfg);
    let mut state = ConsoleState::new();
    type_line(&mut state, &cfg, &table, &idx, "help");
    let r = apply_action(&mut state, &cfg, &table, Some(&idx), Action::Submit);
    let entered = r.expect("a registered command dispatches exactly one event");
    assert_eq!(entered.command_name, "help");
    assert!(entered.args.is_empty());
    assert_eq!(state.scrollback_lines().len(), 0);
    assert_eq!(state.buffer_text(), "");
}

#[test]
fn test_submit_unknown_command() {
    let cfg = ConsoleConfiguration::default();
    let table = table_of(&["help"]);
    let idx = index_of(&table, &cfg);
    let mut state = ConsoleState::new();
    type_line(&mut state, &cfg, &table, &idx, "frobnicate x y");
    let r = apply_action(&mut state, &cfg, &table, Some(&idx), Action::Submit);
    assert!(r.is_none());
    assert_eq!(state.scrollback_lines().len(), 1);
    assert_eq!(state.scrollback_lines()[0], "error: Invalid command");
    // the line is still committed to history
    assert_eq!(state.history.len(), 2);
    assert_eq!(state.history.entry_at(1), "frobnicate x y");
}

#[test]
fn test_submit_quoted_arguments() {
    let cfg = ConsoleConfiguration::default();
    let table = table_of(&["say"]);
    let idx = index_of(&table, &cfg);
    let mut state = ConsoleState::new();
    type_line(&mut state, &cfg, &table, &idx, "say 'hello world' \"x y\"");
    let r = apply_action(&mut state, &cfg, &table, Some(&idx), Action::Submit);
    let entered = r.expect("say is registered");
    assert_eq!(entered.command_name, "say");
    assert_eq!(entered.args, vec!["hello world".to_string(), "x y".to_string()]);
}

#[test]
fn test_submit_comment_line_dispatches_nothing() {
    let cfg = ConsoleConfiguration::default();
    let table = table_of(&["help"]);
    let idx = index_of(&table, &cfg);
    let mut state = ConsoleState::new();
    type_line(&mut state, &cfg, &table, &idx, "# just a note");
    let r = apply_action(&mut state, &cfg, &table, Some(&idx), Action::Submit);
    // the tokenizer yields no words, so nothing is dispatched and no error
    // is reported, but the non-blank line is still committed to history
    assert!(r.is_none());
    assert_eq!(state.scrollback_lines().len(), 0);
    assert_eq!(state.history.len(), 2);
    assert_eq!(state.buffer_text(), "");
}

#[test]
fn test_submit_unterminated_quote_drops_trailing_word() {
    let cfg = ConsoleConfiguration::default();
    let table = table_of(&["say"]);
    let idx = index_of(&table, &cfg);
    let mut state = ConsoleState::new();
    type_line(&mut state, &cfg, &table, &idx, "say 'abc");
    let r = apply_action(&mut state, &cfg, &table, Some(&idx), Action::Submit);
    let entered = r.expect("the command word itself still parses");
    assert_eq!(entered.command_name, "say");
    assert!(entered.args.is_empty());
}

#[test]
fn test_history_round_trip() {
    let cfg = ConsoleConfiguration::default();
    let table = table_of(&["a", "b", "c"]);
    let idx = index_of(&table, &cfg);
    let mut state = ConsoleState::new();
    for line in ["a", "b", "c"] {
        type_line(&mut state, &cfg, &table, &idx, line);
        apply_action(&mut state, &cfg, &table, Some(&idx), Action::Submit);
    }
    type_line(&mut state, &cfg, &table, &idx, "draft");
    apply_action(&mut state, &cfg, &table, Some(&idx), Action::HistoryOlder);
    assert_eq!(state.buffer_text(), "c");
    apply_action(&mut state, &cfg, &table, Some(&idx), Action::HistoryOlder);
    assert_eq!(state.buffer_text(), "b");
    apply_action(&mut state, &cfg, &table, Some(&idx), Action::HistoryOlder);
    assert_eq!(state.buffer_text(), "a");
    apply_action(&mut state, &cfg, &table, Some(&idx), Action::HistoryNewer);
    apply_action(&mut state, &cfg, &table, Some(&idx), Action::HistoryNewer);
    apply_action(&mut state, &cfg, &table, Some(&idx), Action::HistoryNewer);
    assert_eq!(state.buffer_text(), "draft");
    assert_eq!(state.cursor(), 5);
}

#[test]
fn test_history_navigation_clamped() {
    let cfg = ConsoleConfiguration::default();
    let table = table_of(&["a"]);
    let idx = index_of(&table, &cfg);
    let mut state = ConsoleState::new();
    apply_action(&mut state, &cfg, &table, Some(&idx), Action::HistoryOlder);
    assert_eq!(state.buffer_text(), "");
    apply_action(&mut state, &cfg, &table, Some(&idx), Action::HistoryNewer);
    assert_eq!(state.buffer_text(), "");
    type_line(&mut state, &cfg, &table, &idx, "a");
    apply_action(&mut state, &cfg, &table, Some(&idx), Action::Submit);
    apply_action(&mut state, &cfg, &table, Some(&idx), Action::HistoryOlder);
    assert_eq!(state.buffer_text(), "a");
    // already at the oldest entry
    apply_action(&mut state, &cfg, &table, Some(&idx), Action::HistoryOlder);
    assert_eq!(state.buffer_text(), "a");
}

#[test]
fn test_history_eviction() {
    let mut cfg = ConsoleConfiguration::default();
    cfg.history_size = 3;
    let table = table_of(&[]);
    let idx = index_of(&table, &cfg);
    let mut state = ConsoleState::new();
    for i in 0..8 {
        type_line(&mut state, &cfg, &table, &idx, &format!("line{}", i));
        apply_action(&mut state, &cfg, &table, Some(&idx), Action::Submit);
    }
    // exactly history_size prior entries besides the draft slot
    assert_eq!(state.history.len(), 4);
    assert_eq!(state.history.entry_at(1), "line7");
    assert_eq!(state.history.entry_at(2), "line6");
    assert_eq!(state.history.entry_at(3), "line5");
}

#[test]
fn test_predictions_lexicographic_and_limited() {
    let mut cfg = ConsoleConfiguration::default();
    cfg.num_suggestions = 4;
    let table = table_of(&["a5", "a3", "a1", "a4", "a2", "a6", "b1"]);
    let idx = index_of(&table, &cfg);
    let mut state = ConsoleState::new();
    type_line(&mut state, &cfg, &table, &idx, "a");
    recompute_predictions(&mut state, Some(&idx), cfg.num_suggestions);
    assert_eq!(
        state.predictions().clone(),
        vec!["a1".to_string(), "a2".to_string(), "a3".to_string(), "a4".to_string()]
    );
}

#[test]
fn test_prediction_cache_coherence() {
    let cfg = ConsoleConfiguration::default();
    let table = table_of(&["help", "hello"]);
    let idx = index_of(&table, &cfg);
    let mut state = ConsoleState::new();
    type_line(&mut state, &cfg, &table, &idx, "hel");
    recompute_predictions(&mut state, Some(&idx), cfg.num_suggestions);
    let first = state.predictions().clone();
    let key = state.cache.key;
    assert_eq!(first, vec!["hello".to_string(), "help".to_string()]);
    recompute_predictions(&mut state, Some(&idx), cfg.num_suggestions);
    assert_eq!(state.predictions().clone(), first);
    assert_eq!(state.cache.key, key);
}

#[test]
fn test_insertion_invalidates_cache() {
    let cfg = ConsoleConfiguration::default();
    let table = table_of(&["help", "hello"]);
    let idx = index_of(&table, &cfg);
    let mut state = ConsoleState::new();
    type_line(&mut state, &cfg, &table, &idx, "hel");
    recompute_predictions(&mut state, Some(&idx), cfg.num_suggestions);
    let key = state.cache.key;
    apply_action(&mut state, &cfg, &table, Some(&idx), Action::InsertChar('p'));
    recompute_predictions(&mut state, Some(&idx), cfg.num_suggestions);
    assert_ne!(state.cache.key, key);
    assert_eq!(state.predictions().clone(), vec!["help".to_string()]);
    assert!(state.cache.exact_match);
}

#[test]
fn test_completion_cycling_wraps() {
    let cfg = ConsoleConfiguration::default();
    let table = table_of(&["aa", "ab", "ac"]);
    let idx = index_of(&table, &cfg);
    let mut state = ConsoleState::new();
    type_line(&mut state, &cfg, &table, &idx, "a");
    apply_action(&mut state, &cfg, &table, Some(&idx), Action::CompletionCycle);
    assert_eq!(state.selected(), Some(0));
    apply_action(&mut state, &cfg, &table, Some(&idx), Action::CompletionCycle);
    assert_eq!(state.selected(), Some(1));
    apply_action(&mut state, &cfg, &table, Some(&idx), Action::CompletionCycle);
    assert_eq!(state.selected(), Some(2));
    // wrap-around at exactly len(predictions): back to the starting value
    apply_action(&mut state, &cfg, &table, Some(&idx), Action::CompletionCycle);
    assert_eq!(state.selected(), Some(0));
}

#[test]
fn test_exact_match_suppresses_cycling() {
    let cfg = ConsoleConfiguration::default();
    let table = table_of(&["help"]);
    let idx = index_of(&table, &cfg);
    let mut state = ConsoleState::new();
    type_line(&mut state, &cfg, &table, &idx, "help");
    apply_action(&mut state, &cfg, &table, Some(&idx), Action::CompletionCycle);
    assert!(state.cache.exact_match);
    assert_eq!(state.selected(), None);
}

#[test]
fn test_submit_accepts_selected_completion() {
    let cfg = ConsoleConfiguration::default();
    let table = table_of(&["hello"]);
    let idx = index_of(&table, &cfg);
    let mut state = ConsoleState::new();
    type_line(&mut state, &cfg, &table, &idx, "he");
    apply_action(&mut state, &cfg, &table, Some(&idx), Action::CompletionCycle);
    assert_eq!(state.selected(), Some(0));
    // submission is intercepted: the buffer takes the prediction and no
    // command is dispatched this round
    let r = apply_action(&mut state, &cfg, &table, Some(&idx), Action::Submit);
    assert!(r.is_none());
    assert_eq!(state.buffer_text(), "hello");
    assert_eq!(state.cursor(), 5);
    assert_eq!(state.selected(), None);
    assert_eq!(state.history.len(), 1);
    // the second submit runs the completed line
    let r2 = apply_action(&mut state, &cfg, &table, Some(&idx), Action::Submit);
    assert_eq!(r2.expect("dispatches now").command_name, "hello");
}

#[test]
fn test_phrase_completions() {
    let mut cfg = ConsoleConfiguration::default();
    cfg.arg_completions = vec![vec!["custom".to_string(), "foo".to_string()]];
    let table = table_of(&["custom"]);
    let idx = index_of(&table, &cfg);
    let mut state = ConsoleState::new();
    type_line(&mut state, &cfg, &table, &idx, "custom");
    recompute_predictions(&mut state, Some(&idx), cfg.num_suggestions);
    assert_eq!(
        state.predictions().clone(),
        vec!["custom".to_string(), "custom foo".to_string()]
    );
}

#[test]
fn test_clear_action() {
    let cfg = ConsoleConfiguration::default();
    let table = table_of(&["help"]);
    let idx = index_of(&table, &cfg);
    let mut state = ConsoleState::new();
    type_line(&mut state, &cfg, &table, &idx, "help");
    apply_action(&mut state, &cfg, &table, Some(&idx), Action::Clear);
    assert_eq!(state.buffer_text(), "");
    assert_eq!(state.cursor(), 0);
    assert_eq!(state.selected(), None);
}

#[test]
fn test_register_duplicate_wins_late() {
    let mut t = CommandTable::new();
    assert!(!t.register("help".to_string()));
    assert!(t.register("help".to_string()));
    assert_eq!(t.len(), 1);
    assert!(t.contains(&"help".to_string()));
    assert!(!t.contains(&"quit".to_string()));
}

#[test]
fn test_configuration_defaults() {
    let cfg = ConsoleConfiguration::default();
    assert_eq!(cfg.history_size, 20);
    assert_eq!(cfg.num_suggestions, 4);
    assert_eq!(cfg.symbol, "$ ");
    assert!(cfg.arg_completions.is_empty());
}

#[test]
fn test_clear_scrollback() {
    let mut state = ConsoleState::new();
    state.push_line("one".to_string());
    state.push_line("two".to_string());
    state.clear_scrollback();
    assert!(state.scrollback_lines().is_empty());
}

#[test]
fn test_push_line_appends_in_order() {
    let mut state = ConsoleState::new();
    state.push_line("one".to_string());
    state.push_line("two".to_string());
    assert_eq!(state.scrollback_lines().clone(), vec!["one".to_string(), "two".to_string()]);
}
