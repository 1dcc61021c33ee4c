//! The navigation bar: one item for each task list, in order, at most one of them active.

use vstd::prelude::*;

use crate::storage::{List, ListView};
use crate::views;

verus! {

/// The name of a navigation item. A name is never given twice.
pub type Entity = u64;

/// The icon of a list that names none.
pub const DEFAULT_ICON: &'static str = "view-list-symbolic";

/// One item: its text, the name of its icon, and the list that it stands for.
#[derive(Debug)]
pub struct NavItem {
    pub id: Entity,
    pub text: String,
    pub icon: String,
    pub list: List,
}

#[verifier::ext_equal]
pub struct NavItemView {
    pub id: Entity,
    pub text: Seq<char>,
    pub icon: Seq<char>,
    pub list: ListView,
}

impl View for NavItem {
    type V = NavItemView;

    open spec fn view(&self) -> NavItemView {
        NavItemView { id: self.id, text: self.text@, icon: self.icon@, list: self.list@ }
    }
}

/// The items in order, the active one, and the name for the next item.
#[derive(Debug)]
pub struct NavModel {
    pub items: Vec<NavItem>,
    pub active: Option<Entity>,
    pub next: Entity,
}

#[verifier::ext_equal]
pub struct NavView {
    pub items: Seq<NavItemView>,
    pub active: Option<Entity>,
    pub next: int,
}

impl View for NavModel {
    type V = NavView;

    open spec fn view(&self) -> NavView {
        NavView {
            items: views::seq_view(self.items@),
            active: self.active,
            next: self.next as int,
        }
    }
}

/// The icon that a list is shown with.
pub open spec fn list_icon(list: ListView) -> Seq<char> {
    match list.icon {
        Some(icon) => icon,
        None => DEFAULT_ICON@,
    }
}

/// The item that is made for a list.
pub open spec fn item_for(id: int, list: ListView) -> NavItemView {
    NavItemView { id: id as Entity, text: list.name, icon: list_icon(list), list }
}

impl NavView {
    /// No two items have one name, no name is one yet to be given, and the active item exists.
    pub open spec fn wf(self) -> bool {
        &&& 0 <= self.next <= Entity::MAX
        &&& forall|i: int, j: int|
            0 <= i < j < self.items.len() ==> (#[trigger] self.items[i]).id != (
            #[trigger] self.items[j]).id
        &&& forall|i: int| 0 <= i < self.items.len() ==> (#[trigger] self.items[i]).id < self.next
        &&& self.active matches Some(id) ==> self.has(id)
    }

    /// Whether the item at `i` is the first with the name `id`.
    pub open spec fn found_at(self, i: int, id: Entity) -> bool {
        &&& 0 <= i < self.items.len()
        &&& self.items[i].id == id
        &&& forall|j: int| 0 <= j < i ==> (#[trigger] self.items[j]).id != id
    }

    /// Whether there is an item with the name `id`.
    pub open spec fn has(self, id: Entity) -> bool {
        exists|i: int| self.found_at(i, id)
    }

    /// Where the item with the name `id` stands.
    pub open spec fn position(self, id: Entity) -> int {
        choose|i: int| self.found_at(i, id)
    }

    /// The list of the item with the name `id`.
    pub open spec fn data(self, id: Entity) -> Option<ListView> {
        if self.has(id) {
            Some(self.items[self.position(id)].list)
        } else {
            None
        }
    }

    /// The item that a dialog is about: the named one, else the active one.
    pub open spec fn target(self, entity: Option<Entity>) -> Option<Entity> {
        match entity {
            Some(id) => Some(id),
            None => self.active,
        }
    }

    /// The list of the item that a dialog is about.
    pub open spec fn resolve(self, entity: Option<Entity>) -> Option<ListView> {
        match self.target(entity) {
            Some(id) => self.data(id),
            None => None,
        }
    }

    /// The navigation bar with another item in the place of the one named `id`.
    pub open spec fn with_item(self, id: Entity, item: NavItemView) -> NavView {
        NavView { items: self.items.update(self.position(id), item), ..self }
    }

    /// With another list behind the item named `id`.
    pub open spec fn with_list(self, id: Entity, list: ListView) -> NavView {
        if self.has(id) {
            self.with_item(id, NavItemView { list, ..self.items[self.position(id)] })
        } else {
            self
        }
    }

    /// With another text on the active item.
    pub open spec fn with_active_text(self, text: Seq<char>) -> NavView {
        match self.active {
            Some(id) if self.has(id) => self.with_item(
                id,
                NavItemView { text, ..self.items[self.position(id)] },
            ),
            _ => self,
        }
    }

    /// With another icon on the active item.
    pub open spec fn with_active_icon(self, icon: Seq<char>) -> NavView {
        match self.active {
            Some(id) if self.has(id) => self.with_item(
                id,
                NavItemView { icon, ..self.items[self.position(id)] },
            ),
            _ => self,
        }
    }

    /// With the item named `id` active, where there is one.
    pub open spec fn activated(self, id: Entity) -> NavView {
        if self.has(id) {
            NavView { active: Some(id), ..self }
        } else {
            self
        }
    }

    /// With an item for each of `lists`, in order, behind those that are there.
    pub open spec fn with_new_items(self, lists: Seq<ListView>) -> NavView {
        NavView {
            items: self.items + Seq::new(
                lists.len(),
                |i: int| item_for(self.next + i, lists[i]),
            ),
            active: self.active,
            next: self.next + lists.len(),
        }
    }

    /// Without the active item.
    pub open spec fn without_active(self) -> NavView {
        match self.active {
            Some(id) => NavView {
                items: if self.has(id) {
                    self.items.remove(self.position(id))
                } else {
                    self.items
                },
                active: None,
                next: self.next,
            },
            None => self,
        }
    }

    /// Only one place is the first with a name.
    pub proof fn lemma_found_at(self, i: int, id: Entity)
        requires
            self.found_at(i, id),
        ensures
            self.has(id),
            self.position(id) == i,
    {
        let p = self.position(id);
        assert(self.found_at(p, id));
        if p < i {
            assert(self.items[p].id != id);
        } else if i < p {
            assert(self.items[i].id != id);
        }
    }
}

impl NavModel {
    /// A navigation bar without items.
    pub fn new() -> (r: NavModel)
        ensures
            r@ == (NavView { items: Seq::empty(), active: None, next: 0 }),
            r@.wf(),
    {
        let r = NavModel { items: Vec::new(), active: None, next: 0 };
        assert(r@.items =~= Seq::empty());
        r
    }

    /// Where the item with the name `id` stands.
    pub fn find(&self, id: Entity) -> (r: Option<usize>)
        ensures
            match r {
                Some(i) => self@.found_at(i as int, id) && self@.has(id) && self@.position(id) == i,
                None => !self@.has(id),
            },
    {
        let mut i: usize = 0;
        while i < self.items.len()
            invariant
                i <= self.items.len(),
                forall|j: int| 0 <= j < i ==> (#[trigger] self@.items[j]).id != id,
            decreases self.items.len() - i,
        {
            assert(self@.items[i as int] == self.items@[i as int]@);
            if self.items[i].id == id {
                proof {
                    self@.lemma_found_at(i as int, id);
                }
                return Some(i);
            }
            i = i + 1;
        }
        None
    }

    /// A copy of the list of the item with the name `id`.
    pub fn data(&self, id: Entity) -> (r: Option<List>)
        ensures
            views::opt_view(r) == self@.data(id),
    {
        match self.find(id) {
            Some(i) => {
                assert(self@.items[i as int] == self.items@[i as int]@);
                Some(self.items[i].list.clone())
            },
            None => None,
        }
    }

    /// A copy of the list of the item that a dialog is about.
    pub fn resolve(&self, entity: Option<Entity>) -> (r: Option<List>)
        ensures
            views::opt_view(r) == self@.resolve(entity),
    {
        match entity {
            Some(id) => self.data(id),
            None => match self.active {
                Some(id) => self.data(id),
                None => None,
            },
        }
    }

    /// Puts another list behind the item named `id`, where there is one.
    pub fn set_list(&mut self, id: Entity, list: List)
        ensures
            final(self)@ == old(self)@.with_list(id, list@),
            old(self)@.wf() ==> final(self)@.wf(),
    {
        let ghost before = self@;
        if let Some(i) = self.find(id) {
            let ghost item = self.items@[i as int];
            assert(before.items[i as int] == item@);
            self.items[i].list = list;
            assert(self@.items =~= before.with_list(id, list@).items);
            proof {
                before.lemma_with_item_wf(id, self@.items[i as int]);
            }
        }
    }

    /// Puts another text on the active item.
    pub fn set_active_text(&mut self, text: String)
        ensures
            final(self)@ == old(self)@.with_active_text(text@),
            old(self)@.wf() ==> final(self)@.wf(),
    {
        let ghost before = self@;
        if let Some(id) = self.active {
            if let Some(i) = self.find(id) {
                let ghost item = self.items@[i as int];
                assert(before.items[i as int] == item@);
                self.items[i].text = text;
                assert(self@.items =~= before.with_active_text(text@).items);
                proof {
                    before.lemma_with_item_wf(id, self@.items[i as int]);
                }
            }
        }
    }

    /// Puts another icon on the active item.
    pub fn set_active_icon(&mut self, icon: String)
        ensures
            final(self)@ == old(self)@.with_active_icon(icon@),
            old(self)@.wf() ==> final(self)@.wf(),
    {
        let ghost before = self@;
        if let Some(id) = self.active {
            if let Some(i) = self.find(id) {
                let ghost item = self.items@[i as int];
                assert(before.items[i as int] == item@);
                self.items[i].icon = icon;
                assert(self@.items =~= before.with_active_icon(icon@).items);
                proof {
                    before.lemma_with_item_wf(id, self@.items[i as int]);
                }
            }
        }
    }

    /// Makes the item named `id` the active one, where there is one.
    pub fn activate(&mut self, id: Entity)
        ensures
            final(self)@ == old(self)@.activated(id),
            old(self)@.wf() ==> final(self)@.wf(),
    {
        let ghost before = self@;
        if self.find(id).is_some() {
            self.active = Some(id);
            proof {
                let i = before.position(id);
                assert(before.found_at(i, id));
                assert(self@.found_at(i, id));
            }
        }
    }

    /// Appends an item for a list, and returns the name of the item.
    pub fn insert(&mut self, list: List) -> (id: Entity)
        requires
            old(self).next < Entity::MAX,
        ensures
            id == old(self)@.next,
            final(self)@ == old(self)@.with_new_items(seq![list@]),
            old(self)@.wf() ==> final(self)@.wf(),
    {
        let ghost before = self@;
        let icon: String = match &list.icon {
            Some(icon) => icon.clone(),
            None => DEFAULT_ICON.to_owned(),
        };
        let id: Entity = self.next;
        let item = NavItem { id, text: list.name.clone(), icon, list };
        assert(item@ == item_for(before.next, list@));
        self.items.push(item);
        self.next = self.next + 1;
        assert(self@.items =~= before.with_new_items(seq![list@]).items);
        proof {
            before.lemma_with_new_items_wf(seq![list@]);
        }
        id
    }

    /// Removes the active item.
    pub fn remove_active(&mut self)
        ensures
            final(self)@ == old(self)@.without_active(),
            old(self)@.wf() ==> final(self)@.wf(),
    {
        let ghost before = self@;
        if let Some(id) = self.active {
            if let Some(i) = self.find(id) {
                self.items.remove(i);
            }
            self.active = None;
            assert(self@.items =~= before.without_active().items);
        }
    }
}

impl NavView {
    /// Another item under the same name leaves the navigation bar well formed.
    pub proof fn lemma_with_item_wf(self, id: Entity, item: NavItemView)
        requires
            self.has(id),
            item.id == id,
        ensures
            self.wf() ==> self.with_item(id, item).wf(),
            forall|e: Entity| #[trigger] self.with_item(id, item).has(e) == self.has(e),
            forall|e: Entity|
                self.has(e) ==> #[trigger] self.with_item(id, item).position(e) == self.position(e),
    {
        let p = self.position(id);
        assert(self.found_at(p, id));
        let after = self.with_item(id, item);
        assert forall|i: int, e: Entity| #[trigger] after.found_at(i, e) == self.found_at(i, e) by {
            if after.found_at(i, e) {
                assert forall|j: int| 0 <= j < i implies (#[trigger] self.items[j]).id != e by {
                    assert(after.items[j].id != e);
                }
            }
            if self.found_at(i, e) {
                assert forall|j: int| 0 <= j < i implies (#[trigger] after.items[j]).id != e by {
                    assert(self.items[j].id != e);
                }
            }
        }
        assert forall|e: Entity| #[trigger] after.has(e) == self.has(e) by {
            if self.has(e) {
                assert(after.found_at(self.position(e), e));
            }
            if after.has(e) {
                assert(self.found_at(after.position(e), e));
            }
        }
        assert forall|e: Entity| self.has(e) implies #[trigger] after.position(e) == self.position(
            e,
        ) by {
            assert(after.found_at(self.position(e), e));
            after.lemma_found_at(self.position(e), e);
        }
    }

    /// New items leave the navigation bar well formed, and the old ones where they were.
    pub proof fn lemma_with_new_items_wf(self, lists: Seq<ListView>)
        requires
            self.next + lists.len() <= Entity::MAX,
            0 <= self.next,
        ensures
            self.wf() ==> self.with_new_items(lists).wf(),
            forall|e: Entity| self.has(e) ==> #[trigger] self.with_new_items(lists).has(e),
            forall|e: Entity|
                self.has(e) ==> #[trigger] self.with_new_items(lists).position(e) == self.position(
                    e,
                ),
    {
        let after = self.with_new_items(lists);
        assert forall|e: Entity| self.has(e) implies #[trigger] after.has(e) && after.position(e)
            == self.position(e) by {
            let i = self.position(e);
            assert(self.found_at(i, e));
            assert forall|j: int| 0 <= j < i implies (#[trigger] after.items[j]).id != e by {
                assert(after.items[j] == self.items[j]);
            }
            assert(after.found_at(i, e));
            after.lemma_found_at(i, e);
        }
        assert forall|e: Entity| self.has(e) implies #[trigger] after.position(e) == self.position(
            e,
        ) by {
            assert(after.has(e));
        }
        if self.wf() {
            assert forall|i: int, j: int| 0 <= i < j < after.items.len() implies (
            #[trigger] after.items[i]).id != (#[trigger] after.items[j]).id by {
                let n = self.items.len();
                if j < n {
                    assert(after.items[i] == self.items[i]);
                    assert(after.items[j] == self.items[j]);
                } else if i < n {
                    assert(after.items[i] == self.items[i]);
                    assert(after.items[j].id == self.next + (j - n));
                } else {
                    assert(after.items[i].id == self.next + (i - n));
                    assert(after.items[j].id == self.next + (j - n));
                }
            }
            assert forall|i: int| 0 <= i < after.items.len() implies (#[trigger] after.items[i]).id
                < after.next by {
                let n = self.items.len();
                if i < n {
                    assert(after.items[i] == self.items[i]);
                } else {
                    assert(after.items[i].id == self.next + (i - n));
                }
            }
        }
    }
}

} // verus!
