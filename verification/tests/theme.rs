use ax::proto::types::{TaskPriority, TaskStatus};
use ax::tui::theme::{
    accent_bold, colors_enabled_for, for_terminal, git_state, priority, severity, task_status,
    Severity,
};

#[test]
fn no_color_flags_disable_color() {
    assert!(colors_enabled_for(false, false));
    assert!(!colors_enabled_for(true, false));
    assert!(!colors_enabled_for(false, true));
    assert!(!colors_enabled_for(true, true));
}

#[test]
fn other_cues_survive_without_color() {
    let bold = accent_bold();
    let plain = for_terminal(bold, false);
    assert!(plain.fg.is_none());
    assert_eq!(plain.bold, bold.bold);
    assert_eq!(for_terminal(bold, true), bold);
}

#[test]
fn what_is_bad_looks_bad() {
    assert_eq!(task_status(TaskStatus::Failed, false).fg, severity(Severity::Danger).fg);
    assert_ne!(priority(Some(TaskPriority::Urgent)), priority(Some(TaskPriority::Low)));
    assert_ne!(git_state("clean"), git_state("dirty"));
}
