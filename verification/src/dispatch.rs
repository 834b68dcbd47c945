//! The menu dispatcher: resolving one round of the fuzzy-searchable list to
//! a selection outcome, and the top-level loop's state machine that decides
//! what each outcome leads to.

use vstd::prelude::*;
use crate::fuzzy::candidate_indices;
use crate::fuzzy::candidates;
use crate::fuzzy::folded;
use crate::fuzzy::fuzzy_match;
use crate::fuzzy::lemma_exact_match_matches;

verus! {

/// What one round of the selection widget resolved to: the confirmed entry's
/// index into the original list, or an explicit cancellation.
#[derive(Clone, Copy, PartialEq, Eq, Structural, Debug)]
pub enum SelectionOutcome {
    Chosen(usize),
    Cancelled,
}

/// What `select` resolves to: the `highlighted`-th candidate that the query
/// leaves, by its index in the original label list, or a cancellation when
/// there is no such candidate.
pub open spec fn select_spec(labels: Seq<Seq<char>>, query: Seq<char>, highlighted: int) -> SelectionOutcome {
    let cs = candidate_indices(labels, query);
    if 0 <= highlighted < cs.len() {
        SelectionOutcome::Chosen(cs[highlighted] as usize)
    } else {
        SelectionOutcome::Cancelled
    }
}

/// Resolves one round of the menu over `labels`: the query narrows the list
/// to its candidates in display order, and the `highlighted`-th of them is
/// confirmed (the widget highlights the first, position 0, by default).
/// Where no candidate stands at that position, the round is a cancellation;
/// an empty label list therefore never yields an index.
pub fn select(labels: &Vec<String>, query: &str, highlighted: usize) -> (r: SelectionOutcome)
    ensures
        r == select_spec(labels.deep_view(), query@, highlighted as int),
        labels@.len() == 0 ==> r == SelectionOutcome::Cancelled,
        r matches SelectionOutcome::Chosen(i) ==> i < labels@.len() && fuzzy_match(
            query@,
            labels.deep_view()[i as int],
        ),
{
    let cs = candidates(labels, query);
    proof {
        assert(cs@.map_values(|u: usize| u as int).len() == cs@.len());
        if (highlighted as int) < cs@.len() {
            assert(cs@.map_values(|u: usize| u as int)[highlighted as int] == cs@[highlighted as int] as int);
            crate::fuzzy::lemma_candidates_in_range(labels.deep_view(), query@, 0);
            crate::fuzzy::lemma_candidates_exactly_the_matches(labels.deep_view(), query@, 0);
            assert(candidate_indices(labels.deep_view(), query@).contains(
                candidate_indices(labels.deep_view(), query@)[highlighted as int],
            ));
        }
    }
    if highlighted < cs.len() {
        SelectionOutcome::Chosen(cs[highlighted])
    } else {
        SelectionOutcome::Cancelled
    }
}

/// With a query that case-insensitively equals entry `k`'s whole label and
/// matches no other label of the list, the candidate set narrows to exactly
/// that one entry, and confirming the default highlighted candidate selects
/// it.
pub proof fn lemma_unique_exact_match_selects(labels: Seq<Seq<char>>, query: Seq<char>, k: int)
    requires
        0 <= k < labels.len(),
        folded(query) == folded(labels[k]),
        forall|j: int| 0 <= j < labels.len() && j != k ==> !fuzzy_match(query, #[trigger] labels[j]),
    ensures
        candidate_indices(labels, query) == seq![k],
        select_spec(labels, query, 0) == SelectionOutcome::Chosen(k as usize),
{
    lemma_exact_match_matches(query, labels[k]);
    lemma_candidates_only(labels, query, k, 0);
    assert(candidate_indices(labels, query)[0] == k);
}

proof fn lemma_candidates_only(labels: Seq<Seq<char>>, query: Seq<char>, k: int, i: int)
    requires
        0 <= i <= labels.len(),
        0 <= k < labels.len(),
        fuzzy_match(query, labels[k]),
        forall|j: int| 0 <= j < labels.len() && j != k ==> !fuzzy_match(query, #[trigger] labels[j]),
    ensures
        crate::fuzzy::candidates_from(labels, query, i) == if i <= k {
            seq![k]
        } else {
            Seq::<int>::empty()
        },
    decreases labels.len() - i,
{
    if i < labels.len() {
        lemma_candidates_only(labels, query, k, i + 1);
        if i == k {
            assert(seq![k] + Seq::<int>::empty() =~= seq![k]);
        }
    }
}

/// With an empty query the candidate list is the label list itself, so the
/// round confirms whatever position is highlighted: the entries appear in
/// their original order, the first of them highlighted by default.
pub proof fn lemma_empty_query_selects_position(labels: Seq<Seq<char>>, query: Seq<char>, h: int)
    requires
        query.len() == 0,
    ensures
        select_spec(labels, query, h) == if 0 <= h < labels.len() {
            SelectionOutcome::Chosen(h as usize)
        } else {
            SelectionOutcome::Cancelled
        },
{
    crate::fuzzy::lemma_empty_query_keeps_all(labels, query);
}

/// Where the top-level loop stands: at the top menu, or inside the action of
/// the category at this index of the catalog order.
#[derive(Clone, Copy, PartialEq, Eq, Structural, Debug)]
pub enum LoopState {
    AtTopMenu,
    RunningCategory(usize),
}

/// The one outward action a dispatch step asks for. Each step yields exactly
/// one effect.
#[derive(Clone, Copy, PartialEq, Eq, Structural, Debug)]
pub enum Effect {
    /// Open the sub-menu of the category at this catalog index.
    OpenCategory(usize),
    /// Run the entry at this index of the currently open sub-menu.
    RunEntry(usize),
    /// Print the nothing-selected notice.
    NotifyNothingSelected,
}

/// What one top-level round leads to: a chosen category is entered and its
/// sub-menu opened; a cancellation stays at the top menu and asks for the
/// nothing-selected notice.
pub open spec fn step_top_spec(outcome: SelectionOutcome) -> (LoopState, Effect) {
    match outcome {
        SelectionOutcome::Chosen(i) => (LoopState::RunningCategory(i), Effect::OpenCategory(i)),
        SelectionOutcome::Cancelled => (LoopState::AtTopMenu, Effect::NotifyNothingSelected),
    }
}

/// One step of the top-level loop, taken at the top menu on the outcome of
/// `select` over the category labels. A chosen index must name a category;
/// the selection widget only confirms indices of the list it was shown.
pub fn step_top(state: LoopState, outcome: SelectionOutcome, n_categories: usize) -> (r: (
    LoopState,
    Effect,
))
    requires
        state == LoopState::AtTopMenu,
        outcome matches SelectionOutcome::Chosen(i) ==> i < n_categories,
    ensures
        r == step_top_spec(outcome),
{
    match outcome {
        SelectionOutcome::Chosen(i) => (LoopState::RunningCategory(i), Effect::OpenCategory(i)),
        SelectionOutcome::Cancelled => (LoopState::AtTopMenu, Effect::NotifyNothingSelected),
    }
}

/// What one sub-menu round leads to: a chosen entry's action is run; a
/// cancellation asks only for the nothing-selected notice.
pub open spec fn step_sub_spec(outcome: SelectionOutcome) -> Effect {
    match outcome {
        SelectionOutcome::Chosen(j) => Effect::RunEntry(j),
        SelectionOutcome::Cancelled => Effect::NotifyNothingSelected,
    }
}

/// One step of a category's sub-menu, on the outcome of `select` over its
/// entry labels. A chosen index must name an entry of that sub-menu.
pub fn step_sub(outcome: SelectionOutcome, n_entries: usize) -> (e: Effect)
    requires
        outcome matches SelectionOutcome::Chosen(j) ==> j < n_entries,
    ensures
        e == step_sub_spec(outcome),
{
    match outcome {
        SelectionOutcome::Chosen(j) => Effect::RunEntry(j),
        SelectionOutcome::Cancelled => Effect::NotifyNothingSelected,
    }
}

/// After an invoked action returns, the loop stands at the top menu again,
/// whatever state it ran in.
pub fn step_action_returned(state: LoopState) -> (r: LoopState)
    ensures
        r == LoopState::AtTopMenu,
{
    LoopState::AtTopMenu
}

/// Cancelling at the top-level menu leaves the loop state unchanged, still at
/// the top menu, and yields the nothing-selected notice as the step's one
/// effect: the notice appears exactly once per cancellation.
pub proof fn lemma_cancel_at_top_menu()
    ensures
        step_top_spec(SelectionOutcome::Cancelled) == (
            LoopState::AtTopMenu,
            Effect::NotifyNothingSelected,
        ),
{
}

/// Choosing category `c` and then cancelling its sub-menu runs no sub-entry
/// action: the only effect of the cancelled round is the nothing-selected
/// notice, never the running of an entry.
pub proof fn lemma_cancelled_submenu_runs_nothing(c: usize)
    ensures
        step_top_spec(SelectionOutcome::Chosen(c)) == (
            LoopState::RunningCategory(c),
            Effect::OpenCategory(c),
        ),
        step_sub_spec(SelectionOutcome::Cancelled) == Effect::NotifyNothingSelected,
        forall|j: usize| step_sub_spec(SelectionOutcome::Cancelled) != Effect::RunEntry(j),
{
}

/// The loop state after `k` cancelled rounds in a row, starting from `state`.
pub open spec fn after_cancellations(state: LoopState, k: nat) -> LoopState
    decreases k,
{
    if k == 0 {
        state
    } else {
        after_cancellations(step_top_spec(SelectionOutcome::Cancelled).0, (k - 1) as nat)
    }
}

/// Any number of cancelled rounds leaves the loop exactly where it started:
/// at the top menu. A round carries no other state, so repeated cancellation
/// accumulates nothing.
pub proof fn lemma_repeated_cancel_unchanged(k: nat)
    ensures
        after_cancellations(LoopState::AtTopMenu, k) == LoopState::AtTopMenu,
    decreases k,
{
    if k > 0 {
        lemma_repeated_cancel_unchanged((k - 1) as nat);
    }
}

} // verus!
