use quirks::actions::answer_to_the_great_question;
use quirks::actions::eq_trimmed;
use quirks::actions::eq_untrimmed;
use quirks::actions::sort_ints;
use quirks::actions::str_eq;
use quirks::catalog::catalog;
use quirks::catalog::category_labels;
use quirks::catalog::labels_of;
use quirks::catalog::register_category;
use quirks::catalog::weird_func;
use quirks::catalog::Action;
use quirks::dispatch::select;
use quirks::dispatch::SelectionOutcome;
use quirks::fuzzy::candidates;

#[test]
fn catalog_lists_the_six_categories_in_order() {
    let cats = catalog();
    let names: Vec<&str> = cats.iter().map(|c| c.label.as_str()).collect();
    assert_eq!(
        names,
        vec![
            "Input End-of-line Parsing",
            "Mutable Immutable",
            "Sort",
            "Stackoverflow",
            "Struct Size",
            "Async v. Threaded",
        ]
    );
}

#[test]
fn catalog_entries_carry_their_labels_and_actions() {
    let cats = catalog();
    let parsing = &cats[0].entries;
    assert_eq!(parsing.len(), 3);
    assert_eq!(parsing[0].name, "Input End-of-line Parsing");
    assert_eq!(parsing[0].action, Action::InputParsing);
    assert_eq!(parsing[1].name, "Input End-of-line Parsing Explained");
    assert_eq!(parsing[1].action, Action::InputParsingExplained);
    assert_eq!(parsing[2].name, "Input End-of-line Parsing Fixed");
    assert_eq!(parsing[2].action, Action::InputParsingFixed);
    let mutability = &cats[1].entries;
    assert_eq!(mutability.len(), 1);
    assert_eq!(mutability[0].name, "Answer to the Great Question");
    assert_eq!(mutability[0].action, Action::AnswerToTheGreatQuestion);
    let sorting = &cats[2].entries;
    assert_eq!(sorting.len(), 2);
    assert_eq!(sorting[0].name, "Sort int");
    assert_eq!(sorting[0].action, Action::OrdInt);
    assert_eq!(sorting[1].name, "Sort float");
    assert_eq!(sorting[1].action, Action::OrdFloat);
    let overflow = &cats[3].entries;
    assert_eq!(overflow.len(), 2);
    assert_eq!(overflow[0].name, "Stack Overflow");
    assert_eq!(overflow[0].action, Action::Stackoverflow);
    assert_eq!(overflow[1].name, "Stack Overflow Fixed");
    assert_eq!(overflow[1].action, Action::StackoverflowFixed);
    let sizes = &cats[4].entries;
    assert_eq!(sizes.len(), 2);
    assert_eq!(sizes[0].name, "Struct Size");
    assert_eq!(sizes[0].action, Action::StructSize);
    assert_eq!(sizes[1].name, "Empty Struct Size");
    assert_eq!(sizes[1].action, Action::EmptyStructSize);
    let asynchrony = &cats[5].entries;
    assert_eq!(asynchrony.len(), 3);
    assert_eq!(asynchrony[0].name, "Tokio Join Blocking");
    assert_eq!(asynchrony[0].action, Action::AsyncVThreadedTokio);
    assert_eq!(asynchrony[1].name, "Tokio Join Non-Blocking");
    assert_eq!(asynchrony[1].action, Action::AsyncVThreadedTokioFixed);
    assert_eq!(asynchrony[2].name, "Native Threads");
    assert_eq!(asynchrony[2].action, Action::AsyncVThreadedNativeThreads);
}

#[test]
fn one_category_scenario_narrows_then_lists_entries() {
    let entries = quirks::catalog::ord_trait_demo();
    let cat = register_category("Sort".to_string(), entries);
    let top = vec![cat.label.clone()];
    assert_eq!(candidates(&top, "Sor"), vec![0]);
    assert_eq!(select(&top, "Sor", 0), SelectionOutcome::Chosen(0));
    let sub = labels_of(&cat.entries);
    assert_eq!(sub, vec!["Sort int".to_string(), "Sort float".to_string()]);
    assert_eq!(candidates(&sub, ""), vec![0, 1]);
    assert_eq!(select(&sub, "", 0), SelectionOutcome::Chosen(0));
}

#[test]
fn full_catalog_search_selects_a_category() {
    let cats = catalog();
    let top = category_labels(&cats);
    assert_eq!(candidates(&top, "mutable"), vec![1]);
    assert_eq!(select(&top, "mutable", 0), SelectionOutcome::Chosen(1));
}

#[test]
fn subsequence_candidates_keep_catalog_order() {
    let cats = catalog();
    let top = category_labels(&cats);
    // "sor" is a subsequence of both "Sort" and "Stackoverflow"; the earlier
    // entry stays first, so confirming the default picks "Sort".
    assert_eq!(candidates(&top, "sor"), vec![2, 3]);
    assert_eq!(select(&top, "sor", 0), SelectionOutcome::Chosen(2));
}

#[test]
fn empty_category_always_reports_nothing_selected() {
    let cat = register_category("Empty".to_string(), Vec::new());
    let sub = labels_of(&cat.entries);
    assert_eq!(select(&sub, "", 0), SelectionOutcome::Cancelled);
}

#[test]
fn category_labels_follow_catalog_order() {
    let cats = catalog();
    let ls = category_labels(&cats);
    assert_eq!(ls[2], "Sort");
    assert_eq!(ls.len(), 6);
}

#[test]
fn newline_defeats_the_untrimmed_comparison() {
    assert!(!eq_untrimmed("2\n", "2"));
    assert!(eq_trimmed("2\n", "2"));
}

#[test]
fn untrimmed_comparison_is_plain_equality() {
    assert!(eq_untrimmed("2", "2"));
    assert!(!eq_untrimmed("3", "2"));
    assert!(str_eq("", ""));
    assert!(!str_eq("a", ""));
}

#[test]
fn trimming_strips_both_ends_only() {
    assert!(eq_trimmed("  2  ", "2"));
    assert!(eq_trimmed("\t2\r\n", "2"));
    assert!(eq_trimmed("   \n", ""));
    assert!(!eq_trimmed("2 2", "22"));
    assert!(!eq_trimmed("3\n", "2"));
}

#[test]
fn the_answer_is_forty_two() {
    assert_eq!(answer_to_the_great_question(), 42);
}

#[test]
fn sorting_the_demo_numbers_keeps_them_in_place() {
    let mut numbers: Vec<i64> = vec![1, 2, 3, 4, 5];
    sort_ints(&mut numbers);
    assert_eq!(numbers, vec![1, 2, 3, 4, 5]);
}

#[test]
fn sorting_orders_and_keeps_every_element() {
    let mut numbers: Vec<i64> = vec![3, 1, 2];
    sort_ints(&mut numbers);
    assert_eq!(numbers, vec![1, 2, 3]);
    let mut dupes: Vec<i64> = vec![2, 1, 2, -5];
    sort_ints(&mut dupes);
    assert_eq!(dupes, vec![-5, 1, 2, 2]);
    let mut empty: Vec<i64> = Vec::new();
    sort_ints(&mut empty);
    assert_eq!(empty, Vec::<i64>::new());
}

#[test]
fn the_weird_demonstration_does_nothing() {
    weird_func();
}
