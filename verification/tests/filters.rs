use qol_cli::dash::Page;
use qol_cli::filters::{
    edit_filters, filter_scope, line_matches_filters, FilterScope, FilterState, FilterStrategy, LogFilter,
    ViewFilters,
};
use qol_cli::key_bindings::KeyCode;

fn log_filter(strategy: FilterStrategy, text: &str) -> LogFilter {
    LogFilter {
        strategy,
        text: text.to_string(),
    }
}

#[test]
fn line_matches_filters_combines_include_and_exclude_rules() {
    let filters = vec![
        log_filter(FilterStrategy::Include, "shortcut"),
        log_filter(FilterStrategy::Include, "trace"),
        log_filter(FilterStrategy::Exclude, "success"),
    ];
    assert!(line_matches_filters("shortcut failed", &filters));
    assert!(line_matches_filters("trace emitted", &filters));
    assert!(!line_matches_filters("profile synced", &filters));
    assert!(!line_matches_filters("shortcut success", &filters));
}

#[test]
fn exclude_only_filters_keep_non_matching_lines() {
    let filters = vec![log_filter(FilterStrategy::Exclude, "noise")];
    assert!(line_matches_filters("important trace", &filters));
    assert!(!line_matches_filters("noise trace", &filters));
}

#[test]
fn no_filters_keep_every_line_and_strategies_cycle() {
    assert!(line_matches_filters("anything", &[]));
    assert_eq!(FilterStrategy::Include.cycle(), FilterStrategy::Exclude);
    assert_eq!(FilterStrategy::Exclude.cycle().cycle(), FilterStrategy::Exclude);
    assert_eq!(FilterStrategy::Include.symbol(), "+");
    assert_eq!(FilterStrategy::Exclude.symbol(), "-");
}

#[test]
fn only_log_pages_filter() {
    assert_eq!(filter_scope(Page::Logs), Some(FilterScope::Logs));
    assert_eq!(filter_scope(Page::Trace), Some(FilterScope::Trace));
    assert_eq!(filter_scope(Page::EmuDetail), Some(FilterScope::Emu));
    assert_eq!(filter_scope(Page::Dashboard), None);
    let filters = ViewFilters::new();
    assert!(filters.for_view(Page::Logs).is_empty());
    assert!(!FilterState::Closed.is_active());
    assert!(FilterState::Managing.is_active());
}

#[test]
fn filter_manager_arrows_follow_brick_rows() {
    let mut state = FilterState::Managing;
    let mut index = 0;
    let mut filters = vec![
        log_filter(FilterStrategy::Include, "shortcut"),
        log_filter(FilterStrategy::Exclude, "success"),
        log_filter(FilterStrategy::Include, "trace"),
    ];

    edit_filters(&mut state, &mut index, &mut filters, KeyCode::Right, 24);
    assert_eq!(index, 1, "right selects next brick");
    edit_filters(&mut state, &mut index, &mut filters, KeyCode::Down, 24);
    assert_eq!(index, 2, "down selects nearest brick below");
    edit_filters(&mut state, &mut index, &mut filters, KeyCode::Up, 24);
    assert_eq!(index, 0, "up selects nearest brick above");
    edit_filters(&mut state, &mut index, &mut filters, KeyCode::Left, 24);
    assert_eq!(index, 2, "left wraps to previous row tail");
}

#[test]
fn edit_filters_adds_cycles_edits_and_deletes() {
    let mut state = FilterState::Managing;
    let mut index = 0;
    let mut filters: Vec<LogFilter> = Vec::new();
    let mut dirty = false;
    let mut key = |state: &mut FilterState, index: &mut usize, filters: &mut Vec<LogFilter>, code: KeyCode| {
        dirty |= edit_filters(state, index, filters, code, 76);
    };
    key(&mut state, &mut index, &mut filters, KeyCode::Enter);
    for c in "focus".chars() {
        key(&mut state, &mut index, &mut filters, KeyCode::Char(c));
    }
    key(&mut state, &mut index, &mut filters, KeyCode::Backspace);
    key(&mut state, &mut index, &mut filters, KeyCode::Down);
    key(&mut state, &mut index, &mut filters, KeyCode::Enter);
    assert_eq!(filters, vec![log_filter(FilterStrategy::Exclude, "focu")]);
    assert!(matches!(state, FilterState::Managing));

    key(&mut state, &mut index, &mut filters, KeyCode::Char('e'));
    key(&mut state, &mut index, &mut filters, KeyCode::Backspace);
    key(&mut state, &mut index, &mut filters, KeyCode::Up);
    key(&mut state, &mut index, &mut filters, KeyCode::Enter);
    assert_eq!(filters, vec![log_filter(FilterStrategy::Include, "foc")]);

    key(&mut state, &mut index, &mut filters, KeyCode::Char('d'));
    assert!(filters.is_empty(), "d deletes the selected filter");
    key(&mut state, &mut index, &mut filters, KeyCode::Esc);
    assert!(matches!(state, FilterState::Closed));
    drop(key);
    assert!(dirty, "saving and deleting change saved settings");
}

#[test]
fn blank_drafts_are_not_saved_and_esc_returns_to_the_list() {
    let mut state = FilterState::Editing { index: None, draft: "   ".to_string(), strategy: FilterStrategy::Include };
    let mut index = 0;
    let mut filters: Vec<LogFilter> = Vec::new();
    assert!(!edit_filters(&mut state, &mut index, &mut filters, KeyCode::Enter, 76));
    assert!(matches!(state, FilterState::Editing { .. }));
    assert!(filters.is_empty());
    edit_filters(&mut state, &mut index, &mut filters, KeyCode::Esc, 76);
    assert_eq!(state, FilterState::Managing);
    let mut filters = vec![log_filter(FilterStrategy::Include, "a"), log_filter(FilterStrategy::Include, "b")];
    let mut index = 7;
    assert!(edit_filters(&mut state, &mut index, &mut filters, KeyCode::Char('D'), 76));
    assert_eq!(filters, vec![log_filter(FilterStrategy::Include, "a")]);
    assert_eq!(index, 0);
}
