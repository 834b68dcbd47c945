use quirks::dispatch::select;
use quirks::dispatch::step_action_returned;
use quirks::dispatch::step_sub;
use quirks::dispatch::step_top;
use quirks::dispatch::Effect;
use quirks::dispatch::LoopState;
use quirks::dispatch::SelectionOutcome;
use quirks::fuzzy::candidates;
use quirks::fuzzy::fuzzy_matches;

fn labels(names: &[&str]) -> Vec<String> {
    names.iter().map(|s| s.to_string()).collect()
}

#[test]
fn empty_query_matches_everything() {
    assert!(fuzzy_matches("", "Sort"));
    assert!(fuzzy_matches("", ""));
}

#[test]
fn matching_is_case_insensitive() {
    assert!(fuzzy_matches("SORT", "sort"));
    assert!(fuzzy_matches("sort", "SORT"));
    assert!(fuzzy_matches("sOrT", "Sort"));
}

#[test]
fn matching_is_by_subsequence() {
    assert!(fuzzy_matches("srt", "Sort"));
    assert!(fuzzy_matches("sor", "Stackoverflow"));
    assert!(!fuzzy_matches("rts", "Sort"));
    assert!(!fuzzy_matches("xyz", "Sort"));
    assert!(!fuzzy_matches("a", ""));
}

#[test]
fn empty_query_keeps_all_entries_in_order() {
    let ls = labels(&["Sort int", "Sort float"]);
    assert_eq!(candidates(&ls, ""), vec![0, 1]);
}

#[test]
fn query_narrows_candidates() {
    let ls = labels(&["Alpha", "Beta", "Gamma"]);
    assert_eq!(candidates(&ls, "beta"), vec![1]);
    assert_eq!(candidates(&ls, "a"), vec![0, 1, 2]);
    assert_eq!(candidates(&ls, "am"), vec![2]);
    assert_eq!(candidates(&ls, "zzz"), Vec::<usize>::new());
}

#[test]
fn duplicate_labels_are_permitted_and_both_match() {
    let ls = labels(&["Twin", "Twin"]);
    assert_eq!(candidates(&ls, "twin"), vec![0, 1]);
}

#[test]
fn unique_exact_match_confirms_that_entry() {
    let ls = labels(&["Alpha", "Beta", "Gamma"]);
    assert_eq!(select(&ls, "beta", 0), SelectionOutcome::Chosen(1));
}

#[test]
fn select_on_empty_list_is_cancelled() {
    let ls: Vec<String> = Vec::new();
    assert_eq!(select(&ls, "", 0), SelectionOutcome::Cancelled);
    assert_eq!(select(&ls, "anything", 0), SelectionOutcome::Cancelled);
}

#[test]
fn select_with_no_candidate_at_highlight_is_cancelled() {
    let ls = labels(&["Alpha", "Beta"]);
    assert_eq!(select(&ls, "zzz", 0), SelectionOutcome::Cancelled);
    assert_eq!(select(&ls, "", 2), SelectionOutcome::Cancelled);
}

#[test]
fn select_confirms_highlighted_candidate() {
    let ls = labels(&["Alpha", "Beta", "Gamma"]);
    assert_eq!(select(&ls, "", 0), SelectionOutcome::Chosen(0));
    assert_eq!(select(&ls, "", 2), SelectionOutcome::Chosen(2));
    assert_eq!(select(&ls, "am", 0), SelectionOutcome::Chosen(2));
}

#[test]
fn cancel_at_top_menu_stays_at_top_menu() {
    let (state, effect) = step_top(LoopState::AtTopMenu, SelectionOutcome::Cancelled, 6);
    assert_eq!(state, LoopState::AtTopMenu);
    assert_eq!(effect, Effect::NotifyNothingSelected);
}

#[test]
fn choosing_a_category_opens_it() {
    let (state, effect) = step_top(LoopState::AtTopMenu, SelectionOutcome::Chosen(2), 6);
    assert_eq!(state, LoopState::RunningCategory(2));
    assert_eq!(effect, Effect::OpenCategory(2));
}

#[test]
fn cancelled_submenu_runs_no_entry_and_returns_to_top() {
    let (state, effect) = step_top(LoopState::AtTopMenu, SelectionOutcome::Chosen(3), 6);
    assert_eq!(effect, Effect::OpenCategory(3));
    let sub_effect = step_sub(SelectionOutcome::Cancelled, 2);
    assert_eq!(sub_effect, Effect::NotifyNothingSelected);
    assert_eq!(step_action_returned(state), LoopState::AtTopMenu);
}

#[test]
fn chosen_submenu_entry_is_run() {
    assert_eq!(step_sub(SelectionOutcome::Chosen(1), 2), Effect::RunEntry(1));
}

#[test]
fn repeated_cancellation_changes_nothing() {
    let mut state = LoopState::AtTopMenu;
    for _ in 0..3 {
        let (next, effect) = step_top(state, SelectionOutcome::Cancelled, 6);
        assert_eq!(next, LoopState::AtTopMenu);
        assert_eq!(effect, Effect::NotifyNothingSelected);
        state = step_action_returned(next);
        assert_eq!(state, LoopState::AtTopMenu);
    }
}
