use program_launcher::history::{OutputHistory, MAX_LINES};

fn numbered(from: usize, to: usize) -> Vec<String> {
    (from..to).map(|i| format!("line {}", i)).collect()
}

fn held(history: &OutputHistory) -> Vec<String> {
    history.lines().iter().cloned().collect()
}

#[test]
fn it_works() {
}

#[test]
fn limit_is_one_hundred_lines() {
    assert_eq!(MAX_LINES, 100);
}

#[test]
fn new_history_is_empty() {
    let history = OutputHistory::new();
    assert_eq!(history.len(), 0);
    assert!(history.lines().is_empty());
}

#[test]
fn lines_are_kept_in_order_below_the_limit() {
    let mut history = OutputHistory::new();
    history.push_line("a".to_string());
    history.push_line("b".to_string());
    history.append(vec!["c".to_string(), "d".to_string()]);
    assert_eq!(held(&history), vec!["a", "b", "c", "d"]);
    assert_eq!(history.len(), 4);
}

#[test]
fn full_history_loses_its_oldest_line() {
    let mut history = OutputHistory::new();
    for line in numbered(0, 100) {
        history.push_line(line);
    }
    assert_eq!(history.len(), 100);
    assert_eq!(held(&history), numbered(0, 100));
    history.push_line("line 100".to_string());
    assert_eq!(history.len(), 100);
    assert_eq!(held(&history), numbered(1, 101));
}

#[test]
fn history_holds_the_most_recent_lines_of_many_batches() {
    let mut history = OutputHistory::new();
    let mut next = 0;
    for size in [0, 1, 7, 99, 100, 101, 3, 250, 0, 42] {
        history.append(numbered(next, next + size));
        next += size;
        assert!(history.len() <= MAX_LINES);
        let first = if next > MAX_LINES { next - MAX_LINES } else { 0 };
        assert_eq!(held(&history), numbered(first, next));
    }
}

#[test]
fn one_batch_beyond_the_limit_keeps_its_last_lines() {
    let mut history = OutputHistory::new();
    history.push_line("old".to_string());
    history.append(numbered(0, 150));
    assert_eq!(held(&history), numbered(50, 150));
}
