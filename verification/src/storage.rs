//! Task lists and tasks, as far as the decisions of the application read them.

use vstd::prelude::*;

use crate::views;

verus! {

/// A task list. `id` is the number under which the storage side keeps the full record.
#[derive(Debug)]
pub struct List {
    pub id: u64,
    pub name: String,
    pub icon: Option<String>,
    pub hide_completed: bool,
}

#[verifier::ext_equal]
pub struct ListView {
    pub id: u64,
    pub name: Seq<char>,
    pub icon: Option<Seq<char>>,
    pub hide_completed: bool,
}

impl View for List {
    type V = ListView;

    open spec fn view(&self) -> ListView {
        ListView {
            id: self.id,
            name: self.name@,
            icon: views::opt_view(self.icon),
            hide_completed: self.hide_completed,
        }
    }
}

impl Clone for List {
    fn clone(&self) -> (r: Self)
        ensures
            r@ == self@,
    {
        List {
            id: self.id,
            name: self.name.clone(),
            icon: views::clone_opt_string(&self.icon),
            hide_completed: self.hide_completed,
        }
    }
}

/// A task. `id` is the number under which the storage side keeps the full record, `priority`
/// the position of its priority among the priorities that the details page offers.
#[derive(Debug)]
pub struct Task {
    pub id: u64,
    pub notes: String,
    pub priority: u16,
}

#[verifier::ext_equal]
pub struct TaskView {
    pub id: u64,
    pub notes: Seq<char>,
    pub priority: u16,
}

impl View for Task {
    type V = TaskView;

    open spec fn view(&self) -> TaskView {
        TaskView { id: self.id, notes: self.notes@, priority: self.priority }
    }
}

impl Clone for Task {
    fn clone(&self) -> (r: Self)
        ensures
            r@ == self@,
    {
        Task { id: self.id, notes: self.notes.clone(), priority: self.priority }
    }
}

/// A copy of a list of task lists.
pub fn clone_lists(v: &Vec<List>) -> (r: Vec<List>)
    ensures
        views::seq_view(r@) == views::seq_view(v@),
{
    let mut r: Vec<List> = Vec::new();
    let mut i: usize = 0;
    while i < v.len()
        invariant
            i <= v.len(),
            r@.len() == i,
            forall|k: int| 0 <= k < i ==> (#[trigger] r@[k])@ == v@[k]@,
        decreases v.len() - i,
    {
        r.push(v[i].clone());
        i = i + 1;
    }
    assert(views::seq_view(r@) =~= views::seq_view(v@));
    r
}

} // verus!
