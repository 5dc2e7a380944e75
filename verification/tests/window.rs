use mistralrs_chat::window::ConversationWindow;

fn filled(capacity: usize, turns: &[&str]) -> ConversationWindow {
    let mut window = ConversationWindow::new(capacity);
    for turn in turns {
        window.push(turn.to_string());
    }
    window
}

#[test]
fn new_window_is_empty() {
    let window = ConversationWindow::new(3);
    assert!(window.is_empty());
    assert_eq!(window.len(), 0);
    assert_eq!(window.capacity(), 3);
    assert_eq!(window.render(), "");
    assert_eq!(window.turns(), Vec::<String>::new());
}

#[test]
fn push_below_capacity_keeps_everything() {
    let window = filled(3, &["T1", "T2"]);
    assert_eq!(window.len(), 2);
    assert_eq!(window.turns(), vec!["T1".to_string(), "T2".to_string()]);
    assert_eq!(window.render(), "T1\nT2");
}

#[test]
fn push_at_capacity_evicts_the_oldest() {
    let mut window = filled(3, &["T1", "T2", "T3"]);
    assert_eq!(window.render(), "T1\nT2\nT3");
    window.push("T4".to_string());
    assert_eq!(window.len(), 3);
    assert_eq!(window.render(), "T2\nT3\nT4");
}

#[test]
fn four_pushes_into_three_render_the_last_three() {
    let window = filled(3, &["T1", "T2", "T3", "T4"]);
    assert_eq!(window.render(), "T2\nT3\nT4");
}

#[test]
fn many_pushes_keep_the_most_recent_in_order() {
    for capacity in 1..6usize {
        let mut window = ConversationWindow::new(capacity);
        let mut pushed: Vec<String> = Vec::new();
        for n in 0..20 {
            let turn = format!("turn {}", n);
            window.push(turn.clone());
            pushed.push(turn);
            let from = pushed.len().saturating_sub(capacity);
            assert_eq!(window.turns(), pushed[from..].to_vec());
            assert!(window.len() <= capacity);
        }
        assert_eq!(window.len(), capacity);
    }
}

#[test]
fn single_turn_renders_without_separator() {
    let window = filled(3, &["only"]);
    assert_eq!(window.render(), "only");
}

#[test]
fn empty_turns_still_count_and_separate() {
    let window = filled(3, &["", "b", ""]);
    assert_eq!(window.len(), 3);
    assert_eq!(window.render(), "\nb\n");
}

#[test]
fn render_twice_gives_the_same_text() {
    let window = filled(3, &["T1", "T2", "T3", "T4"]);
    let first = window.render();
    let second = window.render();
    assert_eq!(first, second);
    assert_eq!(window.len(), 3);
}

#[test]
fn clear_empties_and_keeps_capacity() {
    let mut window = filled(2, &["T1", "T2"]);
    window.clear();
    assert!(window.is_empty());
    assert_eq!(window.capacity(), 2);
    assert_eq!(window.render(), "");
    window.push("T3".to_string());
    assert_eq!(window.render(), "T3");
}

#[test]
fn capacity_one_holds_the_latest_turn_only() {
    let window = filled(1, &["T1", "T2", "T3"]);
    assert_eq!(window.turns(), vec!["T3".to_string()]);
}

#[test]
fn capacity_zero_holds_nothing() {
    let window = filled(0, &["T1", "T2"]);
    assert!(window.is_empty());
    assert_eq!(window.len(), 0);
    assert_eq!(window.render(), "");
}

#[test]
fn turns_with_line_breaks_render_as_they_are() {
    let window = filled(2, &["User: a\nAda b", "User: c\nAda d"]);
    assert_eq!(window.render(), "User: a\nAda b\nUser: c\nAda d");
}
