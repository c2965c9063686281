//! The state store of the todo application: the list of items, the pending
//! input text, the id counter and the active view filter, together with the
//! commands that user actions trigger and the derived views the display
//! reads.
use vstd::prelude::*;
use crate::text::trim;
use crate::text::trim_spec;

verus! {

broadcast use vstd::seq_lib::group_filter_ensures;

/// Which todo items the list view shows.
#[derive(Clone, Copy, PartialEq, Eq, Structural, Debug)]
pub enum Filter {
    All,
    Active,
    Completed,
}

/// One task record: a stable id, the entered text, and a completion flag.
pub struct TodoItem {
    pub id: usize,
    pub text: String,
    pub completed: bool,
}

impl Clone for TodoItem {
    fn clone(&self) -> (r: Self)
        ensures
            r == *self,
    {
        TodoItem { id: self.id, text: self.text.clone(), completed: self.completed }
    }
}

/// No two items of `s` share an id.
pub open spec fn ids_unique(s: Seq<TodoItem>) -> bool {
    forall|i: int, j: int| 0 <= i < j < s.len() ==> s[i].id != s[j].id
}

/// Every id in `s` lies below `bound`.
pub open spec fn ids_below(s: Seq<TodoItem>, bound: int) -> bool {
    forall|i: int| 0 <= i < s.len() ==> s[i].id < bound
}

/// `t` with its completion flag flipped when its id is `id`.
pub open spec fn toggle_item(t: TodoItem, id: usize) -> TodoItem {
    if t.id == id {
        TodoItem { id: t.id, text: t.text, completed: !t.completed }
    } else {
        t
    }
}

/// `s` with the completion flag flipped on each item whose id is `id`.
pub open spec fn toggle_seq(s: Seq<TodoItem>, id: usize) -> Seq<TodoItem> {
    s.map_values(|t: TodoItem| toggle_item(t, id))
}

/// Keeps the items whose id differs from `id`.
pub open spec fn keeps_id(id: usize) -> spec_fn(TodoItem) -> bool {
    |t: TodoItem| t.id != id
}

/// Keeps the items that are not completed.
pub open spec fn is_active() -> spec_fn(TodoItem) -> bool {
    |t: TodoItem| !t.completed
}

/// Keeps the items that are completed.
pub open spec fn is_completed_item() -> spec_fn(TodoItem) -> bool {
    |t: TodoItem| t.completed
}

/// `s` without the item of id `id` (order otherwise preserved).
pub open spec fn remove_id(s: Seq<TodoItem>, id: usize) -> Seq<TodoItem> {
    s.filter(keeps_id(id))
}

/// The not-yet-completed items of `s`, in order.
pub open spec fn active_items(s: Seq<TodoItem>) -> Seq<TodoItem> {
    s.filter(is_active())
}

/// The completed items of `s`, in order.
pub open spec fn completed_items(s: Seq<TodoItem>) -> Seq<TodoItem> {
    s.filter(is_completed_item())
}

/// How many items of `s` are still to do.
pub open spec fn remaining_spec(s: Seq<TodoItem>) -> nat {
    active_items(s).len()
}

/// The items of `s` that the view filter `f` shows, in list order.
pub open spec fn filtered_spec(s: Seq<TodoItem>, f: Filter) -> Seq<TodoItem> {
    match f {
        Filter::All => s,
        Filter::Active => active_items(s),
        Filter::Completed => completed_items(s),
    }
}

/// Scanning one item further keeps or appends it, by the predicate.
proof fn lemma_filter_step(s: Seq<TodoItem>, pred: spec_fn(TodoItem) -> bool, i: int)
    requires
        0 <= i < s.len(),
    ensures
        s.subrange(0, i + 1).filter(pred) == if pred(s[i]) {
            s.subrange(0, i).filter(pred).push(s[i])
        } else {
            s.subrange(0, i).filter(pred)
        },
{
    reveal(Seq::filter);
    let a = s.subrange(0, i + 1);
    assert(a.drop_last() =~= s.subrange(0, i));
    assert(a.last() == s[i]);
}

/// Every kept item is an item of the scanned sequence.
proof fn lemma_filter_elem_of(s: Seq<TodoItem>, pred: spec_fn(TodoItem) -> bool, k: int)
    requires
        0 <= k < s.filter(pred).len(),
    ensures
        exists|i: int| 0 <= i < s.len() && s[i] == s.filter(pred)[k],
    decreases s.len(),
{
    reveal(Seq::filter);
    let dl = s.drop_last();
    let f = s.filter(pred);
    if pred(s.last()) && k == f.len() - 1 {
        assert(s[s.len() - 1] == f[k]);
    } else {
        lemma_filter_elem_of(dl, pred, k);
        let i = choose|i: int| 0 <= i < dl.len() && dl[i] == dl.filter(pred)[k];
        assert(s[i] == f[k]);
    }
}

/// Filtering keeps ids unique and bounded.
proof fn lemma_filter_wf(s: Seq<TodoItem>, pred: spec_fn(TodoItem) -> bool, bound: int)
    requires
        ids_unique(s),
        ids_below(s, bound),
    ensures
        ids_unique(s.filter(pred)),
        ids_below(s.filter(pred), bound),
    decreases s.len(),
{
    reveal(Seq::filter);
    if s.len() > 0 {
        let dl = s.drop_last();
        assert(ids_unique(dl));
        assert(ids_below(dl, bound));
        lemma_filter_wf(dl, pred, bound);
        let fdl = dl.filter(pred);
        let f = s.filter(pred);
        if pred(s.last()) {
            assert(f == fdl.push(s.last()));
            assert forall|i: int, j: int| 0 <= i < j < f.len() implies f[i].id != f[j].id by {
                if j == f.len() - 1 {
                    lemma_filter_elem_of(dl, pred, i);
                    let k = choose|k: int| 0 <= k < dl.len() && dl[k] == fdl[i];
                    assert(s[k].id != s[s.len() - 1].id);
                }
            }
            assert(ids_below(f, bound));
        }
    }
}

/// A sequence every item of which the predicate keeps is kept whole.
proof fn lemma_filter_all(s: Seq<TodoItem>, pred: spec_fn(TodoItem) -> bool)
    requires
        forall|i: int| 0 <= i < s.len() ==> pred(#[trigger] s[i]),
    ensures
        s.filter(pred) == s,
    decreases s.len(),
{
    reveal(Seq::filter);
    if s.len() > 0 {
        let dl = s.drop_last();
        lemma_filter_all(dl, pred);
        assert(pred(s.last()));
        assert(dl.push(s.last()) =~= s);
    }
}

/// Flipping the completion flag of the same id twice restores the list
/// exactly as it was.
pub proof fn lemma_toggle_involution(s: Seq<TodoItem>, id: usize)
    ensures
        toggle_seq(toggle_seq(s, id), id) == s,
{
    let s1 = toggle_seq(s, id);
    let s2 = toggle_seq(s1, id);
    assert forall|i: int| 0 <= i < s.len() implies s2[i] == s[i] by {
        assert(s1[i] == toggle_item(s[i], id));
        assert(s2[i] == toggle_item(s1[i], id));
    }
    assert(s2 =~= s);
}

/// Removing an id a second time changes nothing: the first removal already
/// left no item with that id.
pub proof fn lemma_delete_idempotent(s: Seq<TodoItem>, id: usize)
    ensures
        remove_id(remove_id(s, id), id) == remove_id(s, id),
{
    lemma_filter_all(remove_id(s, id), keeps_id(id));
}

/// After the completed items are cleared, no completed item remains, and the
/// remaining count equals the whole length of what is left.
pub proof fn lemma_clear_completed_clears(s: Seq<TodoItem>)
    ensures
        forall|i: int| 0 <= i < active_items(s).len() ==> !(#[trigger] active_items(s)[i]).completed,
        remaining_spec(active_items(s)) == active_items(s).len(),
{
    lemma_filter_all(active_items(s), is_active());
}

/// A copy of `v`, item for item.
fn clone_items(v: &Vec<TodoItem>) -> (out: Vec<TodoItem>)
    ensures
        out@ == v@,
{
    let mut out: Vec<TodoItem> = Vec::new();
    let n = v.len();
    let mut i: usize = 0;
    while i < n
        invariant
            i <= n,
            n == v@.len(),
            out@.len() == i as int,
            forall|k: int| 0 <= k < i ==> out@[k] == v@[k],
        decreases n - i,
    {
        let t = &v[i];
        out.push(t.clone());
        i = i + 1;
    }
    proof {
        assert(out@ =~= v@);
    }
    out
}

/// The items of `v` whose id differs from `id`, in order.
fn remove_with_id(v: &Vec<TodoItem>, id: usize) -> (out: Vec<TodoItem>)
    ensures
        out@ == remove_id(v@, id),
{
    let mut out: Vec<TodoItem> = Vec::new();
    let n = v.len();
    let mut i: usize = 0;
    while i < n
        invariant
            i <= n,
            n == v@.len(),
            out@ == v@.subrange(0, i as int).filter(keeps_id(id)),
        decreases n - i,
    {
        let t = &v[i];
        proof {
            lemma_filter_step(v@, keeps_id(id), i as int);
        }
        if t.id != id {
            out.push(t.clone());
        }
        i = i + 1;
    }
    proof {
        assert(v@.subrange(0, n as int) =~= v@);
    }
    out
}

/// The not-yet-completed items of `v`, in order.
fn keep_active(v: &Vec<TodoItem>) -> (out: Vec<TodoItem>)
    ensures
        out@ == active_items(v@),
{
    let mut out: Vec<TodoItem> = Vec::new();
    let n = v.len();
    let mut i: usize = 0;
    while i < n
        invariant
            i <= n,
            n == v@.len(),
            out@ == v@.subrange(0, i as int).filter(is_active()),
        decreases n - i,
    {
        let t = &v[i];
        proof {
            lemma_filter_step(v@, is_active(), i as int);
        }
        if !t.completed {
            out.push(t.clone());
        }
        i = i + 1;
    }
    proof {
        assert(v@.subrange(0, n as int) =~= v@);
    }
    out
}

/// The completed items of `v`, in order.
fn keep_completed(v: &Vec<TodoItem>) -> (out: Vec<TodoItem>)
    ensures
        out@ == completed_items(v@),
{
    let mut out: Vec<TodoItem> = Vec::new();
    let n = v.len();
    let mut i: usize = 0;
    while i < n
        invariant
            i <= n,
            n == v@.len(),
            out@ == v@.subrange(0, i as int).filter(is_completed_item()),
        decreases n - i,
    {
        let t = &v[i];
        proof {
            lemma_filter_step(v@, is_completed_item(), i as int);
        }
        if t.completed {
            out.push(t.clone());
        }
        i = i + 1;
    }
    proof {
        assert(v@.subrange(0, n as int) =~= v@);
    }
    out
}

/// The whole application state: the list, the pending input text, the id
/// counter and the active view filter.
pub struct TodoApp {
    pub todos: Vec<TodoItem>,
    pub input_value: String,
    pub next_id: usize,
    pub filter: Filter,
}

impl TodoApp {
    /// The store's invariant: ids are unique and every id lies below the
    /// counter that assigns the next one.
    pub open spec fn wf(self) -> bool {
        ids_unique(self.todos@) && ids_below(self.todos@, self.next_id as int)
    }

    /// The starting state: two sample tasks, the counter past their ids, no
    /// pending input, and every item shown.
    pub fn new() -> (r: Self)
        ensures
            r.todos@.len() == 2,
            r.todos@[0].id == 0,
            r.todos@[0].text@ == "Learn Dioxus"@,
            !r.todos@[0].completed,
            r.todos@[1].id == 1,
            r.todos@[1].text@ == "Build a desktop app"@,
            !r.todos@[1].completed,
            r.input_value@ == Seq::<char>::empty(),
            r.next_id == 2,
            r.filter == Filter::All,
            r.wf(),
    {
        let mut todos: Vec<TodoItem> = Vec::new();
        todos.push(TodoItem { id: 0, text: "Learn Dioxus".to_owned(), completed: false });
        todos.push(TodoItem { id: 1, text: "Build a desktop app".to_owned(), completed: false });
        let r = TodoApp { todos, input_value: String::new(), next_id: 2, filter: Filter::All };
        proof {
            assert(r.wf());
        }
        r
    }

    /// Reflects live typing: stores the text verbatim and touches nothing
    /// else.
    pub fn set_input(&mut self, text: String)
        ensures
            final(self).input_value == text,
            final(self).todos == old(self).todos,
            final(self).next_id == old(self).next_id,
            final(self).filter == old(self).filter,
            old(self).wf() ==> final(self).wf(),
    {
        self.input_value = text;
    }

    /// Selects which items the list view shows; nothing else changes.
    pub fn set_filter(&mut self, f: Filter)
        ensures
            final(self).filter == f,
            final(self).todos == old(self).todos,
            final(self).input_value == old(self).input_value,
            final(self).next_id == old(self).next_id,
            old(self).wf() ==> final(self).wf(),
    {
        self.filter = f;
    }

    /// Adds a task for `text`. Whitespace-only text is silently ignored and
    /// the state is left exactly as it was; otherwise the trimmed text is
    /// appended as a fresh, not-completed item with the next id, the counter
    /// advances by one, and the pending input is cleared.
    pub fn add(&mut self, text: &str)
        requires
            old(self).next_id < usize::MAX,
        ensures
            trim_spec(text@).len() == 0 ==> *final(self) == *old(self),
            trim_spec(text@).len() > 0 ==> {
                &&& final(self).todos@.len() == old(self).todos@.len() + 1
                &&& forall|i: int|
                    0 <= i < old(self).todos@.len() ==> final(self).todos@[i] == old(
                        self,
                    ).todos@[i]
                &&& final(self).todos@.last().id == old(self).next_id
                &&& final(self).todos@.last().text@ == trim_spec(text@)
                &&& !final(self).todos@.last().completed
                &&& final(self).next_id == old(self).next_id + 1
                &&& final(self).input_value@ == Seq::<char>::empty()
                &&& final(self).filter == old(self).filter
            },
            old(self).wf() ==> final(self).wf(),
    {
        let t = trim(text);
        if t.as_str().is_empty() {
            return ;
        }
        let id = self.next_id;
        self.todos.push(TodoItem { id, text: t, completed: false });
        self.next_id = id + 1;
        self.input_value = String::new();
        proof {
            if old(self).wf() {
                let s = old(self).todos@;
                let s2 = self.todos@;
                assert forall|i: int, j: int| 0 <= i < j < s2.len() implies s2[i].id != s2[j].id by {
                    if j < s.len() {
                    } else {
                        assert(s2[i].id < old(self).next_id);
                    }
                }
                assert(ids_below(s2, self.next_id as int));
            }
        }
    }

    /// Commits the pending input: behaves as `add` on the stored input text.
    pub fn submit(&mut self)
        requires
            old(self).next_id < usize::MAX,
        ensures
            trim_spec(old(self).input_value@).len() == 0 ==> *final(self) == *old(self),
            trim_spec(old(self).input_value@).len() > 0 ==> {
                &&& final(self).todos@.len() == old(self).todos@.len() + 1
                &&& forall|i: int|
                    0 <= i < old(self).todos@.len() ==> final(self).todos@[i] == old(
                        self,
                    ).todos@[i]
                &&& final(self).todos@.last().id == old(self).next_id
                &&& final(self).todos@.last().text@ == trim_spec(old(self).input_value@)
                &&& !final(self).todos@.last().completed
                &&& final(self).next_id == old(self).next_id + 1
                &&& final(self).input_value@ == Seq::<char>::empty()
                &&& final(self).filter == old(self).filter
            },
            old(self).wf() ==> final(self).wf(),
    {
        let t = self.input_value.clone();
        self.add(t.as_str());
    }

    /// Flips the completion flag of the item whose id is `id`; absent ids
    /// are silently ignored and nothing else changes.
    pub fn toggle(&mut self, id: usize)
        ensures
            final(self).todos@ == toggle_seq(old(self).todos@, id),
            final(self).input_value == old(self).input_value,
            final(self).next_id == old(self).next_id,
            final(self).filter == old(self).filter,
            old(self).wf() ==> final(self).wf(),
    {
        let mut out: Vec<TodoItem> = Vec::new();
        let ghost s = self.todos@;
        let n = self.todos.len();
        let mut i: usize = 0;
        while i < n
            invariant
                i <= n,
                n == s.len(),
                self.todos@ == s,
                out@.len() == i as int,
                forall|k: int| 0 <= k < i ==> out@[k] == toggle_item(s[k], id),
            decreases n - i,
        {
            let t = &self.todos[i];
            if t.id == id {
                out.push(TodoItem { id: t.id, text: t.text.clone(), completed: !t.completed });
            } else {
                out.push(t.clone());
            }
            i = i + 1;
        }
        proof {
            assert(out@ =~= toggle_seq(s, id));
        }
        self.todos = out;
        proof {
            if old(self).wf() {
                let s2 = self.todos@;
                assert(forall|k: int| 0 <= k < s.len() ==> (#[trigger] s2[k]).id == s[k].id);
                assert(ids_unique(s2));
                assert(ids_below(s2, self.next_id as int));
            }
        }
    }

    /// Removes the item whose id is `id`; absent ids are silently ignored.
    pub fn delete(&mut self, id: usize)
        ensures
            final(self).todos@ == remove_id(old(self).todos@, id),
            final(self).input_value == old(self).input_value,
            final(self).next_id == old(self).next_id,
            final(self).filter == old(self).filter,
            old(self).wf() ==> final(self).wf(),
    {
        let out = remove_with_id(&self.todos, id);
        proof {
            if old(self).wf() {
                lemma_filter_wf(self.todos@, keeps_id(id), self.next_id as int);
            }
        }
        self.todos = out;
    }

    /// Removes every completed item, keeping the active ones in order.
    pub fn clear_completed(&mut self)
        ensures
            final(self).todos@ == active_items(old(self).todos@),
            final(self).input_value == old(self).input_value,
            final(self).next_id == old(self).next_id,
            final(self).filter == old(self).filter,
            old(self).wf() ==> final(self).wf(),
    {
        let out = keep_active(&self.todos);
        proof {
            if old(self).wf() {
                lemma_filter_wf(self.todos@, is_active(), self.next_id as int);
            }
        }
        self.todos = out;
    }

    /// The derived list view: the items the active filter shows, in list
    /// order.
    pub fn filtered_todos(&self) -> (r: Vec<TodoItem>)
        ensures
            r@ == filtered_spec(self.todos@, self.filter),
    {
        match self.filter {
            Filter::All => clone_items(&self.todos),
            Filter::Active => keep_active(&self.todos),
            Filter::Completed => keep_completed(&self.todos),
        }
    }

    /// The derived count of items still to do.
    pub fn remaining_count(&self) -> (n: usize)
        ensures
            n == remaining_spec(self.todos@),
    {
        let v = keep_active(&self.todos);
        v.len()
    }
}

} // verus!
