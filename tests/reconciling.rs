use tab_namer::{Command, Event, InputMode, PaneInfo, PaneSnapshot, State, TabInfo};

fn pane(title: &str, is_focused: bool) -> PaneInfo {
    PaneInfo { title: title.to_string(), is_focused }
}

fn tabs(names: &[&str]) -> Vec<TabInfo> {
    names.iter().map(|n| TabInfo { name: n.to_string() }).collect()
}

fn rename(position: usize, name: &str) -> Command {
    Command::RenameTab { position, name: name.to_string() }
}

fn state_with(panes: PaneSnapshot, tab_names: &[&str]) -> State {
    let mut s = State::default();
    assert!(s.update(Event::PaneUpdate(panes)).is_empty());
    assert!(s.update(Event::TabUpdate(tabs(tab_names))).is_empty());
    s
}

#[test]
fn default_state() {
    let s = State::default();
    assert!(s.is_enabled);
    assert_eq!(s.mode, InputMode::Normal);
    assert_eq!(s.tab_keep_prefix, "!");
    assert!(s.panes.is_empty());
    assert!(s.tabs.is_empty());
    assert!(!s.timer_running);
}

#[test]
fn enable_no_disables() {
    let mut s = State::default();
    let cmds = s.load(Some("no"), None);
    assert!(!s.is_enabled);
    assert!(cmds.is_empty());
    assert!(!s.timer_running);
}

#[test]
fn enable_upper_case_yes_enables() {
    let mut s = State::default();
    s.is_enabled = false;
    let cmds = s.load(Some("YES"), None);
    assert!(s.is_enabled);
    assert_eq!(cmds, vec![Command::SetTimeout]);
}

#[test]
fn enable_omitted_defaults_to_true() {
    let mut s = State::default();
    let cmds = s.load(None, None);
    assert!(s.is_enabled);
    assert_eq!(s.tab_keep_prefix, "!");
    assert_eq!(cmds, vec![Command::SetTimeout]);
    assert!(s.timer_running);
}

#[test]
fn keep_prefix_is_trimmed() {
    let mut s = State::default();
    s.load_configuration(None, Some("  # "));
    assert_eq!(s.tab_keep_prefix, "#");
    assert!(s.is_enabled);
}

#[test]
fn timer_is_armed_only_once_at_load() {
    let mut s = State::default();
    assert_eq!(s.load(Some("y"), None), vec![Command::SetTimeout]);
    assert!(s.load(Some("y"), None).is_empty());
    assert!(!s.start_timer());
}

#[test]
fn start_timer_needs_enabled() {
    let mut s = State::default();
    s.is_enabled = false;
    assert!(!s.start_timer());
    assert!(!s.timer_running);
    s.is_enabled = true;
    assert!(s.start_timer());
    assert!(s.timer_running);
}

#[test]
fn mode_update_only_stores_mode() {
    let mut s = State::default();
    assert!(s.update(Event::ModeUpdate(InputMode::Locked)).is_empty());
    assert_eq!(s.mode, InputMode::Locked);
}

#[test]
fn pane_and_tab_updates_replace_snapshots() {
    let mut s = state_with(vec![(0, vec![pane("a", true)])], &["x"]);
    assert!(s.update(Event::PaneUpdate(vec![(1, vec![pane("b", false)])])).is_empty());
    assert_eq!(s.panes, vec![(1, vec![pane("b", false)])]);
    assert!(s.update(Event::TabUpdate(tabs(&["p", "q"]))).is_empty());
    assert_eq!(s.tabs, tabs(&["p", "q"]));
}

#[test]
fn timer_renames_focused_panes() {
    let mut s = state_with(
        vec![
            (0, vec![pane("zsh", false), pane("nvim ~/proj/main.rs", true)]),
            (1, vec![pane("  /usr/bin/htop --flag", true)]),
        ],
        &["Tab #1", "Tab #2"],
    );
    assert_eq!(
        s.update(Event::Timer),
        vec![Command::SetTimeout, rename(1, "nvim"), rename(2, "htop")]
    );
}

#[test]
fn absent_tab_is_skipped() {
    let mut s = state_with(
        vec![(3, vec![pane("vim", true)]), (0, vec![pane("less x", true)])],
        &["one"],
    );
    assert_eq!(s.update(Event::Timer), vec![Command::SetTimeout, rename(1, "less")]);
}

#[test]
fn pinned_tab_is_skipped() {
    let mut s = state_with(
        vec![(0, vec![pane("vim", true)]), (1, vec![pane("top", true)])],
        &["!notes", "Tab #2"],
    );
    assert_eq!(s.update(Event::Timer), vec![Command::SetTimeout, rename(2, "top")]);
}

#[test]
fn custom_keep_prefix() {
    let mut s = state_with(
        vec![(0, vec![pane("vim", true)]), (1, vec![pane("top", true)])],
        &["!notes", "@work"],
    );
    s.load_configuration(None, Some("@"));
    assert_eq!(s.update(Event::Timer), vec![Command::SetTimeout, rename(1, "vim")]);
}

#[test]
fn empty_keep_prefix_pins_every_tab() {
    let mut s = state_with(vec![(0, vec![pane("vim", true)])], &["Tab #1"]);
    s.load_configuration(None, Some("  "));
    assert_eq!(s.update(Event::Timer), vec![Command::SetTimeout]);
}

#[test]
fn renaming_mode_skips_the_scan() {
    let mut s = state_with(vec![(0, vec![pane("vim", true)])], &["Tab #1"]);
    assert!(s.update(Event::ModeUpdate(InputMode::RenameTab)).is_empty());
    assert_eq!(s.update(Event::Timer), vec![Command::SetTimeout]);
    assert!(s.update(Event::ModeUpdate(InputMode::Normal)).is_empty());
    assert_eq!(s.update(Event::Timer), vec![Command::SetTimeout, rename(1, "vim")]);
}

#[test]
fn blank_focused_pane_is_skipped() {
    let mut s = state_with(
        vec![(0, vec![pane("   ", true), pane("", true)]), (1, vec![pane(" git log", true)])],
        &["a", "b"],
    );
    assert_eq!(s.update(Event::Timer), vec![Command::SetTimeout, rename(2, "git")]);
}

#[test]
fn every_focused_pane_renames_its_tab() {
    let mut s = state_with(
        vec![(0, vec![pane("vim a", true), pane("cargo b", false), pane("htop", true)])],
        &["t"],
    );
    assert_eq!(
        s.update(Event::Timer),
        vec![Command::SetTimeout, rename(1, "vim"), rename(1, "htop")]
    );
}

#[test]
fn timer_rearms_once_with_nothing_cached() {
    let mut s = State::default();
    assert_eq!(s.update(Event::Timer), vec![Command::SetTimeout]);
    assert_eq!(s.update(Event::Timer), vec![Command::SetTimeout]);
}

#[test]
fn disabled_state_still_scans_on_timer() {
    let mut s = state_with(vec![(0, vec![pane("vim", true)])], &["Tab #1"]);
    assert!(s.load(Some("false"), None).is_empty());
    assert_eq!(s.update(Event::Timer), vec![Command::SetTimeout, rename(1, "vim")]);
}

#[test]
fn renames_follow_snapshot_order() {
    let s = state_with(
        vec![(1, vec![pane("b", true)]), (0, vec![pane("a", true)])],
        &["x", "y"],
    );
    assert_eq!(s.renames(), vec![rename(2, "b"), rename(1, "a")]);
}
