//! The renderer: a pure function from the state store and its derived views
//! to a plain UI tree. Each todo row is keyed by its stable item id, never by
//! its list position, so a display runtime that diffs by key keeps element
//! identity tied to the right item across re-renders.
use vstd::prelude::*;
use vstd::string::StringExecFns;
use crate::state::Filter;
use crate::state::TodoApp;
use crate::state::TodoItem;
use crate::state::filtered_spec;
use crate::state::remaining_spec;
use crate::text::decimal_string;
use crate::text::spec_decimal;

verus! {

/// What activating a node asks the store to do.
#[derive(Clone, Copy, PartialEq, Eq, Structural, Debug)]
pub enum Action {
    /// Commit the pending input as a new item.
    Add,
    /// Flip the completion flag of the item with this id.
    Toggle(usize),
    /// Remove the item with this id.
    Delete(usize),
    /// Show only the items this filter keeps.
    SetFilter(Filter),
    /// Remove every completed item.
    ClearCompleted,
}

/// The element vocabulary of the rendered tree.
#[derive(Clone, Copy, PartialEq, Eq, Structural, Debug)]
pub enum NodeKind {
    Div,
    Header,
    Heading,
    Para,
    Main,
    TextInput,
    Checkbox,
    Button,
    Span,
}

/// One node of the UI tree: an element kind, a style class, text content,
/// the bound input value, the checkbox state, an optional stable row key,
/// an optional action to dispatch on activation, and the child nodes.
pub struct Node {
    pub kind: NodeKind,
    pub class: String,
    pub text: String,
    pub value: String,
    pub checked: bool,
    pub key: Option<usize>,
    pub action: Option<Action>,
    pub children: Vec<Node>,
}

/// A fresh childless node of the given kind and class, with everything else
/// empty.
fn node(kind: NodeKind, class: &str) -> (n: Node)
    ensures
        n.kind == kind,
        n.class@ == class@,
        n.text@ == Seq::<char>::empty(),
        n.value@ == Seq::<char>::empty(),
        !n.checked,
        n.key is None,
        n.action is None,
        n.children@.len() == 0,
{
    Node {
        kind,
        class: class.to_owned(),
        text: String::new(),
        value: String::new(),
        checked: false,
        key: None,
        action: None,
        children: Vec::new(),
    }
}

/// The row for one todo item: keyed by the item's id, with its checkbox,
/// its text label and its delete button.
pub open spec fn row_matches(n: Node, t: TodoItem) -> bool {
    &&& n.kind == NodeKind::Div
    &&& n.key == Some(t.id)
    &&& n.class@ == (if t.completed {
        "todo-item completed"@
    } else {
        "todo-item"@
    })
    &&& n.children@.len() == 3
    &&& n.children@[0].kind == NodeKind::Checkbox
    &&& n.children@[0].class@ == "todo-checkbox"@
    &&& n.children@[0].checked == t.completed
    &&& n.children@[0].action == Some(Action::Toggle(t.id))
    &&& n.children@[1].kind == NodeKind::Span
    &&& n.children@[1].class@ == "todo-text"@
    &&& n.children@[1].text@ == t.text@
    &&& n.children@[2].kind == NodeKind::Button
    &&& n.children@[2].class@ == "delete-button"@
    &&& n.children@[2].action == Some(Action::Delete(t.id))
}

/// Builds the row for one todo item.
pub fn render_row(t: &TodoItem) -> (n: Node)
    ensures
        row_matches(n, *t),
{
    let mut row = node(
        NodeKind::Div,
        if t.completed {
            "todo-item completed"
        } else {
            "todo-item"
        },
    );
    row.key = Some(t.id);
    let mut checkbox = node(NodeKind::Checkbox, "todo-checkbox");
    checkbox.checked = t.completed;
    checkbox.action = Some(Action::Toggle(t.id));
    let mut label = node(NodeKind::Span, "todo-text");
    label.text = t.text.clone();
    let mut del = node(NodeKind::Button, "delete-button");
    del.action = Some(Action::Delete(t.id));
    row.children.push(checkbox);
    row.children.push(label);
    row.children.push(del);
    row
}

/// The list region: one keyed row per shown item, in order, or a single
/// empty-state node when nothing is shown.
pub open spec fn list_matches(n: Node, items: Seq<TodoItem>) -> bool {
    &&& n.kind == NodeKind::Div
    &&& n.class@ == "todo-list"@
    &&& (items.len() == 0 ==> {
        &&& n.children@.len() == 1
        &&& n.children@[0].kind == NodeKind::Div
        &&& n.children@[0].class@ == "empty-state"@
    })
    &&& (items.len() > 0 ==> {
        &&& n.children@.len() == items.len()
        &&& forall|i: int| 0 <= i < items.len() ==> row_matches(#[trigger] n.children@[i], items[i])
    })
}

/// Builds the list region for the shown items.
pub fn render_list(items: &Vec<TodoItem>) -> (n: Node)
    ensures
        list_matches(n, items@),
{
    let mut list = node(NodeKind::Div, "todo-list");
    if items.len() == 0 {
        let mut empty = node(NodeKind::Div, "empty-state");
        empty.text = "No todos to show!".to_owned();
        list.children.push(empty);
    } else {
        let n_items = items.len();
        let mut i: usize = 0;
        while i < n_items
            invariant
                i <= n_items,
                n_items == items@.len(),
                list.kind == NodeKind::Div,
                list.class@ == "todo-list"@,
                list.children@.len() == i as int,
                forall|k: int| 0 <= k < i ==> row_matches(#[trigger] list.children@[k], items@[k]),
            decreases n_items - i,
        {
            let row = render_row(&items[i]);
            list.children.push(row);
            i = i + 1;
        }
    }
    list
}

/// One filter button: it dispatches its filter, and it is highlighted
/// exactly when its filter is the active one.
pub open spec fn filter_button_matches(n: Node, f: Filter, active: Filter, label: Seq<
    char,
>) -> bool {
    &&& n.kind == NodeKind::Button
    &&& n.class@ == (if f == active {
        "filter-btn active"@
    } else {
        "filter-btn"@
    })
    &&& n.text@ == label
    &&& n.action == Some(Action::SetFilter(f))
}

/// Builds one filter button.
fn filter_button(f: Filter, active: Filter, label: &str) -> (n: Node)
    ensures
        filter_button_matches(n, f, active, label@),
{
    let mut b = node(
        NodeKind::Button,
        if f == active {
            "filter-btn active"
        } else {
            "filter-btn"
        },
    );
    b.text = label.to_owned();
    b.action = Some(Action::SetFilter(f));
    b
}

/// The filter bar: the three filter buttons in their fixed order.
pub open spec fn filter_bar_matches(n: Node, active: Filter) -> bool {
    &&& n.kind == NodeKind::Div
    &&& n.class@ == "filter-section"@
    &&& n.children@.len() == 3
    &&& filter_button_matches(n.children@[0], Filter::All, active, "All"@)
    &&& filter_button_matches(n.children@[1], Filter::Active, active, "Active"@)
    &&& filter_button_matches(n.children@[2], Filter::Completed, active, "Completed"@)
}

/// The input section: the text field live-bound to the pending input, and
/// the add button; both commit the input.
pub open spec fn input_section_matches(n: Node, input: Seq<char>) -> bool {
    &&& n.kind == NodeKind::Div
    &&& n.class@ == "input-section"@
    &&& n.children@.len() == 2
    &&& n.children@[0].kind == NodeKind::TextInput
    &&& n.children@[0].class@ == "todo-input"@
    &&& n.children@[0].value@ == input
    &&& n.children@[0].action == Some(Action::Add)
    &&& n.children@[1].kind == NodeKind::Button
    &&& n.children@[1].class@ == "add-button"@
    &&& n.children@[1].text@ == "Add"@
    &&& n.children@[1].action == Some(Action::Add)
}

/// The text shown beside the clear button: the remaining count in decimal,
/// then the fixed wording.
pub open spec fn count_label(remaining: nat) -> Seq<char> {
    spec_decimal(remaining) + " item(s) left"@
}

/// The footer: the live remaining count and the clear-completed button.
pub open spec fn footer_matches(n: Node, remaining: nat) -> bool {
    &&& n.kind == NodeKind::Div
    &&& n.class@ == "footer"@
    &&& n.children@.len() == 2
    &&& n.children@[0].kind == NodeKind::Span
    &&& n.children@[0].class@ == "todo-count"@
    &&& n.children@[0].text@ == count_label(remaining)
    &&& n.children@[1].kind == NodeKind::Button
    &&& n.children@[1].class@ == "clear-button"@
    &&& n.children@[1].text@ == "Clear Completed"@
    &&& n.children@[1].action == Some(Action::ClearCompleted)
}

/// Builds the footer for the given remaining count.
pub fn render_footer(remaining: usize) -> (n: Node)
    ensures
        footer_matches(n, remaining as nat),
{
    let mut footer = node(NodeKind::Div, "footer");
    let mut count = node(NodeKind::Span, "todo-count");
    let mut label = decimal_string(remaining);
    label.append(" item(s) left");
    count.text = label;
    let mut clear = node(NodeKind::Button, "clear-button");
    clear.text = "Clear Completed".to_owned();
    clear.action = Some(Action::ClearCompleted);
    footer.children.push(count);
    footer.children.push(clear);
    footer
}

/// The fixed page header.
pub open spec fn header_matches(n: Node) -> bool {
    &&& n.kind == NodeKind::Header
    &&& n.class@ == "app-header"@
    &&& n.children@.len() == 2
    &&& n.children@[0].kind == NodeKind::Heading
    &&& n.children@[0].text@ == "Todo App"@
    &&& n.children@[1].kind == NodeKind::Para
    &&& n.children@[1].class@ == "subtitle"@
    &&& n.children@[1].text@ == "Built with Dioxus + Rust"@
}

/// The whole rendered tree for a state: the header, then the main region
/// with the input section, the filter bar, the filtered list and the
/// footer, each agreeing with the state and its derived views.
pub open spec fn app_matches(n: Node, st: TodoApp) -> bool {
    &&& n.kind == NodeKind::Div
    &&& n.class@ == "app-container"@
    &&& n.children@.len() == 2
    &&& header_matches(n.children@[0])
    &&& n.children@[1].kind == NodeKind::Main
    &&& n.children@[1].class@ == "main-content"@
    &&& n.children@[1].children@.len() == 4
    &&& input_section_matches(n.children@[1].children@[0], st.input_value@)
    &&& filter_bar_matches(n.children@[1].children@[1], st.filter)
    &&& list_matches(n.children@[1].children@[2], filtered_spec(st.todos@, st.filter))
    &&& footer_matches(n.children@[1].children@[3], remaining_spec(st.todos@))
}

/// Renders the whole application state as a UI tree.
pub fn render_app(st: &TodoApp) -> (n: Node)
    ensures
        app_matches(n, *st),
{
    let mut header = node(NodeKind::Header, "app-header");
    let mut title = node(NodeKind::Heading, "");
    title.text = "Todo App".to_owned();
    let mut subtitle = node(NodeKind::Para, "subtitle");
    subtitle.text = "Built with Dioxus + Rust".to_owned();
    header.children.push(title);
    header.children.push(subtitle);
    let mut input_section = node(NodeKind::Div, "input-section");
    let mut input = node(NodeKind::TextInput, "todo-input");
    input.value = st.input_value.clone();
    input.action = Some(Action::Add);
    let mut add_button = node(NodeKind::Button, "add-button");
    add_button.text = "Add".to_owned();
    add_button.action = Some(Action::Add);
    input_section.children.push(input);
    input_section.children.push(add_button);
    let mut bar = node(NodeKind::Div, "filter-section");
    bar.children.push(filter_button(Filter::All, st.filter, "All"));
    bar.children.push(filter_button(Filter::Active, st.filter, "Active"));
    bar.children.push(filter_button(Filter::Completed, st.filter, "Completed"));
    let filtered = st.filtered_todos();
    let list = render_list(&filtered);
    let footer = render_footer(st.remaining_count());
    let mut main_region = node(NodeKind::Main, "main-content");
    main_region.children.push(input_section);
    main_region.children.push(bar);
    main_region.children.push(list);
    main_region.children.push(footer);
    let mut root = node(NodeKind::Div, "app-container");
    root.children.push(header);
    root.children.push(main_region);
    root
}

} // verus!
