use todo_app::state::Filter;
use todo_app::state::TodoApp;
use todo_app::text::decimal_string;
use todo_app::text::trim;

#[test]
fn starts_with_sample_items() {
    let st = TodoApp::new();
    assert_eq!(st.todos.len(), 2);
    assert_eq!(st.todos[0].id, 0);
    assert_eq!(st.todos[0].text, "Learn Dioxus");
    assert!(!st.todos[0].completed);
    assert_eq!(st.todos[1].id, 1);
    assert_eq!(st.todos[1].text, "Build a desktop app");
    assert!(!st.todos[1].completed);
    assert_eq!(st.input_value, "");
    assert_eq!(st.next_id, 2);
    assert!(st.filter == Filter::All);
}

#[test]
fn add_whitespace_only_is_a_no_op() {
    let mut st = TodoApp::new();
    st.set_input("   ".to_string());
    st.add("   ");
    assert_eq!(st.todos.len(), 2);
    assert_eq!(st.next_id, 2);
    assert_eq!(st.input_value, "   ");
    st.add("");
    st.add("\t\r\n");
    st.add("\u{3000}\u{00a0}\u{2003}");
    assert_eq!(st.todos.len(), 2);
    assert_eq!(st.next_id, 2);
}

#[test]
fn add_appends_trimmed_item_with_fresh_id() {
    let mut st = TodoApp::new();
    st.set_input("  Write tests  ".to_string());
    st.add("  Write tests  ");
    assert_eq!(st.todos.len(), 3);
    let last = &st.todos[2];
    assert_eq!(last.id, 2);
    assert_eq!(last.text, "Write tests");
    assert!(!last.completed);
    assert_eq!(st.next_id, 3);
    assert_eq!(st.input_value, "");
    assert_eq!(st.todos[0].text, "Learn Dioxus");
    assert_eq!(st.todos[1].text, "Build a desktop app");
}

#[test]
fn submit_commits_the_pending_input() {
    let mut st = TodoApp::new();
    st.set_input(" Buy milk ".to_string());
    st.submit();
    assert_eq!(st.todos.len(), 3);
    assert_eq!(st.todos[2].text, "Buy milk");
    assert_eq!(st.input_value, "");
    st.set_input("  ".to_string());
    st.submit();
    assert_eq!(st.todos.len(), 3);
    assert_eq!(st.input_value, "  ");
}

#[test]
fn ids_are_not_reused_after_deletion() {
    let mut st = TodoApp::new();
    st.delete(1);
    st.add("another");
    assert_eq!(st.todos.len(), 2);
    assert_eq!(st.todos[1].id, 2);
    assert_eq!(st.next_id, 3);
}

#[test]
fn toggle_twice_restores_the_flag() {
    let mut st = TodoApp::new();
    st.toggle(1);
    assert!(st.todos[1].completed);
    assert!(!st.todos[0].completed);
    st.toggle(1);
    assert!(!st.todos[1].completed);
    assert!(!st.todos[0].completed);
    assert_eq!(st.todos.len(), 2);
    assert_eq!(st.todos[1].text, "Build a desktop app");
}

#[test]
fn toggle_of_an_absent_id_is_a_no_op() {
    let mut st = TodoApp::new();
    st.toggle(99);
    assert_eq!(st.todos.len(), 2);
    assert!(!st.todos[0].completed);
    assert!(!st.todos[1].completed);
}

#[test]
fn delete_twice_is_a_no_op_the_second_time() {
    let mut st = TodoApp::new();
    st.delete(0);
    assert_eq!(st.todos.len(), 1);
    assert_eq!(st.todos[0].id, 1);
    st.delete(0);
    assert_eq!(st.todos.len(), 1);
    assert_eq!(st.todos[0].id, 1);
    assert_eq!(st.next_id, 2);
}

#[test]
fn delete_of_an_absent_id_is_a_no_op() {
    let mut st = TodoApp::new();
    st.delete(7);
    assert_eq!(st.todos.len(), 2);
}

#[test]
fn clear_completed_leaves_only_active_items() {
    let mut st = TodoApp::new();
    st.add("third");
    st.toggle(0);
    st.toggle(2);
    st.clear_completed();
    assert_eq!(st.todos.len(), 1);
    assert!(st.todos.iter().all(|t| !t.completed));
    assert_eq!(st.todos[0].id, 1);
    assert_eq!(st.remaining_count(), st.todos.len());
}

#[test]
fn remaining_count_counts_active_items() {
    let mut st = TodoApp::new();
    assert_eq!(st.remaining_count(), 2);
    st.toggle(0);
    assert_eq!(st.remaining_count(), 1);
    st.toggle(1);
    assert_eq!(st.remaining_count(), 0);
}

#[test]
fn filtered_todos_follows_the_filter() {
    let mut st = TodoApp::new();
    st.toggle(0);
    let all = st.filtered_todos();
    assert_eq!(all.len(), 2);
    st.set_filter(Filter::Active);
    let active = st.filtered_todos();
    assert_eq!(active.len(), 1);
    assert_eq!(active[0].id, 1);
    assert!(!active[0].completed);
    st.set_filter(Filter::Completed);
    let completed = st.filtered_todos();
    assert_eq!(completed.len(), 1);
    assert_eq!(completed[0].id, 0);
    assert!(completed[0].completed);
}

#[test]
fn set_input_stores_text_verbatim() {
    let mut st = TodoApp::new();
    st.set_input("  half typed ".to_string());
    assert_eq!(st.input_value, "  half typed ");
    assert_eq!(st.todos.len(), 2);
    assert_eq!(st.next_id, 2);
}

#[test]
fn full_scenario() {
    let mut st = TodoApp::new();
    assert_eq!(st.next_id, 2);
    st.add("Write tests");
    assert_eq!(st.todos.len(), 3);
    assert_eq!(st.todos[2].id, 2);
    assert_eq!(st.todos[2].text, "Write tests");
    assert!(!st.todos[2].completed);
    assert_eq!(st.next_id, 3);
    st.toggle(0);
    assert!(st.todos[0].completed);
    assert_eq!(st.remaining_count(), 2);
    st.set_filter(Filter::Completed);
    let shown = st.filtered_todos();
    assert_eq!(shown.len(), 1);
    assert_eq!(shown[0].id, 0);
    assert_eq!(shown[0].text, "Learn Dioxus");
    assert!(shown[0].completed);
    st.clear_completed();
    assert_eq!(st.todos.len(), 2);
    assert_eq!(st.todos[0].id, 1);
    assert!(!st.todos[0].completed);
    assert_eq!(st.todos[1].id, 2);
    assert!(!st.todos[1].completed);
}

#[test]
fn trim_removes_whitespace_at_both_ends() {
    assert_eq!(trim(""), "");
    assert_eq!(trim("   "), "");
    assert_eq!(trim("abc"), "abc");
    assert_eq!(trim("  a b  "), "a b");
    assert_eq!(trim("\t x \r\n"), "x");
    assert_eq!(trim("\u{3000}task\u{2028}"), "task");
    assert_eq!(trim("inner  space kept"), "inner  space kept");
}

#[test]
fn decimal_string_renders_in_base_ten() {
    assert_eq!(decimal_string(0), "0");
    assert_eq!(decimal_string(7), "7");
    assert_eq!(decimal_string(10), "10");
    assert_eq!(decimal_string(42), "42");
    assert_eq!(decimal_string(90210), "90210");
    assert_eq!(decimal_string(usize::MAX), usize::MAX.to_string());
}
