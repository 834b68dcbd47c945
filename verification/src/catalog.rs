//! The catalog: the closed set of labeled, invocable demonstrations, grouped
//! into named categories and built once, eagerly, before the dispatch loop
//! starts. The catalog never interprets what an action does; it only hands
//! ordered lists of labeled actions to the dispatcher.

use vstd::prelude::*;

verus! {

/// Which demonstration an entry stands for. The terminal front end maps each
/// tag to the body it runs; to the catalog an action is opaque.
#[derive(Clone, Copy, PartialEq, Eq, Structural, Debug)]
pub enum Action {
    InputParsing,
    InputParsingExplained,
    InputParsingFixed,
    OrdInt,
    OrdFloat,
    Stackoverflow,
    StackoverflowFixed,
    StructSize,
    EmptyStructSize,
    AnswerToTheGreatQuestion,
    AsyncVThreadedTokio,
    AsyncVThreadedTokioFixed,
    AsyncVThreadedNativeThreads,
    Weird,
}

/// A labeled, invocable, zero-argument demonstration: the one entry shape of
/// the whole catalog. Immutable once constructed.
pub struct Function {
    pub name: String,
    pub action: Action,
}

/// A named group of entries; the label is what the top-level menu lists, the
/// entries in their order are what the category's sub-menu lists.
pub struct Category {
    pub label: String,
    pub entries: Vec<Function>,
}

/// Builds a category from a non-empty label and its entry list. An empty
/// entry list is legal and yields a sub-menu that can only be cancelled.
pub fn register_category(label: String, entries: Vec<Function>) -> (c: Category)
    requires
        label@.len() > 0,
    ensures
        c.label == label,
        c.entries == entries,
{
    Category { label, entries }
}

fn entry(name: &str, action: Action) -> (f: Function)
    ensures
        f.name@ == name@,
        f.action == action,
{
    Function { name: name.to_owned(), action }
}

/// The entries of the end-of-line parsing category, by label and action, in
/// display order.
pub open spec fn input_parsing_entries(s: Seq<Function>) -> bool {
    &&& s.len() == 3
    &&& s[0].name@ == "Input End-of-line Parsing"@
    &&& s[0].action == Action::InputParsing
    &&& s[1].name@ == "Input End-of-line Parsing Explained"@
    &&& s[1].action == Action::InputParsingExplained
    &&& s[2].name@ == "Input End-of-line Parsing Fixed"@
    &&& s[2].action == Action::InputParsingFixed
}

/// The entry list of the end-of-line parsing category.
pub fn input_string_parsing_demo() -> (entries: Vec<Function>)
    ensures
        input_parsing_entries(entries@),
{
    let mut v: Vec<Function> = Vec::new();
    v.push(entry("Input End-of-line Parsing", Action::InputParsing));
    v.push(entry("Input End-of-line Parsing Explained", Action::InputParsingExplained));
    v.push(entry("Input End-of-line Parsing Fixed", Action::InputParsingFixed));
    v
}

/// The entries of the sorting category, by label and action, in display
/// order.
pub open spec fn ord_entries(s: Seq<Function>) -> bool {
    &&& s.len() == 2
    &&& s[0].name@ == "Sort int"@
    &&& s[0].action == Action::OrdInt
    &&& s[1].name@ == "Sort float"@
    &&& s[1].action == Action::OrdFloat
}

/// The entry list of the sorting category.
pub fn ord_trait_demo() -> (entries: Vec<Function>)
    ensures
        ord_entries(entries@),
{
    let mut v: Vec<Function> = Vec::new();
    v.push(entry("Sort int", Action::OrdInt));
    v.push(entry("Sort float", Action::OrdFloat));
    v
}

/// The entries of the stack-overflow category, by label and action, in
/// display order.
pub open spec fn stackoverflow_entries(s: Seq<Function>) -> bool {
    &&& s.len() == 2
    &&& s[0].name@ == "Stack Overflow"@
    &&& s[0].action == Action::Stackoverflow
    &&& s[1].name@ == "Stack Overflow Fixed"@
    &&& s[1].action == Action::StackoverflowFixed
}

/// The entry list of the stack-overflow category.
pub fn stackoverflow_demo() -> (entries: Vec<Function>)
    ensures
        stackoverflow_entries(entries@),
{
    let mut v: Vec<Function> = Vec::new();
    v.push(entry("Stack Overflow", Action::Stackoverflow));
    v.push(entry("Stack Overflow Fixed", Action::StackoverflowFixed));
    v
}

/// The entries of the struct-size category, by label and action, in display
/// order.
pub open spec fn struct_entries(s: Seq<Function>) -> bool {
    &&& s.len() == 2
    &&& s[0].name@ == "Struct Size"@
    &&& s[0].action == Action::StructSize
    &&& s[1].name@ == "Empty Struct Size"@
    &&& s[1].action == Action::EmptyStructSize
}

/// The entry list of the struct-size category.
pub fn struct_demo() -> (entries: Vec<Function>)
    ensures
        struct_entries(entries@),
{
    let mut v: Vec<Function> = Vec::new();
    v.push(entry("Struct Size", Action::StructSize));
    v.push(entry("Empty Struct Size", Action::EmptyStructSize));
    v
}

/// The entries of the mutability category, by label and action.
pub open spec fn mutable_immutable_entries(s: Seq<Function>) -> bool {
    &&& s.len() == 1
    &&& s[0].name@ == "Answer to the Great Question"@
    &&& s[0].action == Action::AnswerToTheGreatQuestion
}

/// The entry list of the mutability category.
pub fn mutable_immutable_demo() -> (entries: Vec<Function>)
    ensures
        mutable_immutable_entries(entries@),
{
    let mut v: Vec<Function> = Vec::new();
    v.push(entry("Answer to the Great Question", Action::AnswerToTheGreatQuestion));
    v
}

/// The entries of the asynchrony category, by label and action, in display
/// order.
pub open spec fn async_v_threaded_entries(s: Seq<Function>) -> bool {
    &&& s.len() == 3
    &&& s[0].name@ == "Tokio Join Blocking"@
    &&& s[0].action == Action::AsyncVThreadedTokio
    &&& s[1].name@ == "Tokio Join Non-Blocking"@
    &&& s[1].action == Action::AsyncVThreadedTokioFixed
    &&& s[2].name@ == "Native Threads"@
    &&& s[2].action == Action::AsyncVThreadedNativeThreads
}

/// The entry list of the asynchrony category.
pub fn async_v_threaded_demo() -> (entries: Vec<Function>)
    ensures
        async_v_threaded_entries(entries@),
{
    let mut v: Vec<Function> = Vec::new();
    v.push(entry("Tokio Join Blocking", Action::AsyncVThreadedTokio));
    v.push(entry("Tokio Join Non-Blocking", Action::AsyncVThreadedTokioFixed));
    v.push(entry("Native Threads", Action::AsyncVThreadedNativeThreads));
    v
}

/// The body of the `Weird` demonstration: a bare range expression is a
/// statement with no effect, so there is nothing to do.
pub fn weird_func() {
}

/// The full catalog, by category label and entry content, in display order.
pub open spec fn catalog_spec(cats: Seq<Category>) -> bool {
    &&& cats.len() == 6
    &&& cats[0].label@ == "Input End-of-line Parsing"@
    &&& input_parsing_entries(cats[0].entries@)
    &&& cats[1].label@ == "Mutable Immutable"@
    &&& mutable_immutable_entries(cats[1].entries@)
    &&& cats[2].label@ == "Sort"@
    &&& ord_entries(cats[2].entries@)
    &&& cats[3].label@ == "Stackoverflow"@
    &&& stackoverflow_entries(cats[3].entries@)
    &&& cats[4].label@ == "Struct Size"@
    &&& struct_entries(cats[4].entries@)
    &&& cats[5].label@ == "Async v. Threaded"@
    &&& async_v_threaded_entries(cats[5].entries@)
}

/// Builds the whole catalog: the six categories the top-level menu offers,
/// each with its entries, all in display order.
pub fn catalog() -> (cats: Vec<Category>)
    ensures
        catalog_spec(cats@),
{
    proof {
        reveal_strlit("Input End-of-line Parsing");
        reveal_strlit("Mutable Immutable");
        reveal_strlit("Sort");
        reveal_strlit("Stackoverflow");
        reveal_strlit("Struct Size");
        reveal_strlit("Async v. Threaded");
    }
    let mut cats: Vec<Category> = Vec::new();
    cats.push(
        register_category("Input End-of-line Parsing".to_owned(), input_string_parsing_demo()),
    );
    cats.push(register_category("Mutable Immutable".to_owned(), mutable_immutable_demo()));
    cats.push(register_category("Sort".to_owned(), ord_trait_demo()));
    cats.push(register_category("Stackoverflow".to_owned(), stackoverflow_demo()));
    cats.push(register_category("Struct Size".to_owned(), struct_demo()));
    cats.push(register_category("Async v. Threaded".to_owned(), async_v_threaded_demo()));
    cats
}

/// The display labels of an entry list, in order: what a category's sub-menu
/// shows and searches.
pub fn labels_of(entries: &Vec<Function>) -> (ls: Vec<String>)
    ensures
        ls.deep_view() == entries@.map_values(|f: Function| f.name@),
{
    let mut ls: Vec<String> = Vec::new();
    let mut i: usize = 0;
    while i < entries.len()
        invariant
            i <= entries@.len(),
            ls.deep_view() =~= entries@.take(i as int).map_values(|f: Function| f.name@),
        decreases entries@.len() - i,
    {
        ls.push(entries[i].name.clone());
        proof {
            assert(entries@.take(i + 1).map_values(|f: Function| f.name@) =~= entries@.take(
                i as int,
            ).map_values(|f: Function| f.name@).push(entries@[i as int].name@));
        }
        i += 1;
    }
    proof {
        assert(entries@.take(entries@.len() as int) =~= entries@);
    }
    ls
}

/// The display labels of the categories, in order: what the top-level menu
/// shows and searches.
pub fn category_labels(cats: &Vec<Category>) -> (ls: Vec<String>)
    ensures
        ls.deep_view() == cats@.map_values(|c: Category| c.label@),
{
    let mut ls: Vec<String> = Vec::new();
    let mut i: usize = 0;
    while i < cats.len()
        invariant
            i <= cats@.len(),
            ls.deep_view() =~= cats@.take(i as int).map_values(|c: Category| c.label@),
        decreases cats@.len() - i,
    {
        ls.push(cats[i].label.clone());
        proof {
            assert(cats@.take(i + 1).map_values(|c: Category| c.label@) =~= cats@.take(
                i as int,
            ).map_values(|c: Category| c.label@).push(cats@[i as int].label@));
        }
        i += 1;
    }
    proof {
        assert(cats@.take(cats@.len() as int) =~= cats@);
    }
    ls
}

} // verus!
