//! What holds of the application as a whole.

use vstd::prelude::*;

use crate::actions::{ApplicationActionView, ContextPage, NavMenuAction, TasksActionView};
use crate::app::FlagsView;
use crate::config::{AppTheme, ConfigEntryView, ConfigView};
use crate::content;
use crate::dialog::{DialogActionView, DialogPageView};
use crate::message::{CommandView, EventView, JobView, MessageView, PreferencesMessageView};
use crate::model;
use crate::model::TasksView;
use crate::nav;
use crate::nav::{Entity, NavItemView, NavView};
use crate::preferences;
use crate::preferences::{PreferencesView, StoredKeyView};
use crate::runtime;
use crate::runtime::RuntimeView;
use crate::storage::ListView;
use crate::text;

verus! {

impl NavView {
    /// A list behind an item leaves the navigation bar well formed.
    pub(crate) proof fn lemma_with_list(self, id: Entity, list: ListView)
        ensures
            self.wf() ==> self.with_list(id, list).wf(),
            self.with_list(id, list).active == self.active,
            self.with_list(id, list).items.len() == self.items.len(),
            forall|e: Entity| #[trigger] self.with_list(id, list).has(e) == self.has(e),
            forall|e: Entity|
                self.has(e) ==> #[trigger] self.with_list(id, list).position(e) == self.position(e),
    {
        if self.has(id) {
            assert(self.found_at(self.position(id), id));
            self.lemma_with_item_wf(id, NavItemView { list, ..self.items[self.position(id)] });
        }
    }

    /// A text on the active item leaves the navigation bar well formed.
    pub(crate) proof fn lemma_with_active_text(self, text: Seq<char>)
        ensures
            self.wf() ==> self.with_active_text(text).wf(),
            self.with_active_text(text).active == self.active,
            self.with_active_text(text).items.len() == self.items.len(),
            forall|e: Entity| #[trigger] self.with_active_text(text).has(e) == self.has(e),
            forall|e: Entity|
                self.has(e) ==> #[trigger] self.with_active_text(text).position(e)
                    == self.position(e),
    {
        if let Some(id) = self.active {
            if self.has(id) {
                assert(self.found_at(self.position(id), id));
                self.lemma_with_item_wf(id, NavItemView { text, ..self.items[self.position(id)] });
            }
        }
    }

    /// An icon on the active item leaves the navigation bar well formed.
    pub(crate) proof fn lemma_with_active_icon(self, icon: Seq<char>)
        ensures
            self.wf() ==> self.with_active_icon(icon).wf(),
            self.with_active_icon(icon).active == self.active,
            self.with_active_icon(icon).items.len() == self.items.len(),
            forall|e: Entity| #[trigger] self.with_active_icon(icon).has(e) == self.has(e),
            forall|e: Entity|
                self.has(e) ==> #[trigger] self.with_active_icon(icon).position(e)
                    == self.position(e),
    {
        if let Some(id) = self.active {
            if self.has(id) {
                assert(self.found_at(self.position(id), id));
                self.lemma_with_item_wf(id, NavItemView { icon, ..self.items[self.position(id)] });
            }
        }
    }

    /// Making an item active leaves the navigation bar well formed, and its items as they are.
    pub(crate) proof fn lemma_activated(self, id: Entity)
        ensures
            self.wf() ==> self.activated(id).wf(),
            self.activated(id).items == self.items,
            forall|e: Entity| #[trigger] self.activated(id).has(e) == self.has(e),
            forall|e: Entity|
                self.has(e) ==> #[trigger] self.activated(id).position(e) == self.position(e),
    {
        let after = self.activated(id);
        assert forall|i: int, e: Entity| #[trigger] after.found_at(i, e) == self.found_at(i, e) by {
        }
        assert forall|e: Entity| #[trigger] after.has(e) == self.has(e) by {
            if self.has(e) {
                assert(after.found_at(self.position(e), e));
            }
            if after.has(e) {
                assert(self.found_at(after.position(e), e));
            }
        }
        assert forall|e: Entity| self.has(e) implies #[trigger] after.position(e) == self.position(
            e,
        ) by {
            assert(after.found_at(self.position(e), e));
            after.lemma_found_at(self.position(e), e);
        }
    }

    /// In a well formed navigation bar each item is found under its name.
    pub proof fn lemma_found(self, i: int)
        requires
            self.wf(),
            0 <= i < self.items.len(),
        ensures
            self.has(self.items[i].id),
            self.position(self.items[i].id) == i,
            self.data(self.items[i].id) == Some(self.items[i].list),
    {
        assert(self.found_at(i, self.items[i].id));
        self.lemma_found_at(i, self.items[i].id);
    }
}

/// Choosing an item keeps the state well formed.
pub(crate) proof fn lemma_select_wf(s: TasksView, id: Entity)
    ensures
        s.wf() ==> s.select(id).0.wf(),
{
    s.nav_model.lemma_activated(id);
}

/// Carrying out a dialog keeps the state well formed.
pub(crate) proof fn lemma_complete_wf(s: TasksView, page: DialogPageView)
    ensures
        s.wf() ==> s.complete(page).0.wf(),
{
    let nav = s.nav_model;
    match page {
        DialogPageView::Rename(entity, name) => {
            if let Some(list) = nav.resolve(entity) {
                let id = nav.target(entity)->0;
                let renamed = ListView { name, ..list };
                nav.lemma_with_list(id, renamed);
                nav.with_list(id, renamed).lemma_with_active_text(name);
            }
        },
        DialogPageView::Icon(entity, icon, _) => {
            let shown = match nav.resolve(entity) {
                Some(list) => nav.with_active_text(list.name).with_active_icon(icon),
                None => nav,
            };
            if let Some(list) = nav.resolve(entity) {
                nav.lemma_with_active_text(list.name);
                nav.with_active_text(list.name).lemma_with_active_icon(icon);
            }
            if let Some(list) = shown.resolve(None) {
                shown.lemma_with_list(shown.active->0, ListView { icon: Some(icon), ..list });
            }
        },
        _ => {},
    }
}

/// Handling an event keeps the state well formed.
pub(crate) proof fn lemma_handle_wf(s: TasksView, event: EventView)
    requires
        s.wf(),
        s.admits(event),
    ensures
        s.handle(event).0.wf(),
{
    match event {
        EventView::NavSelected(id) => {
            lemma_select_wf(s, id);
        },
        EventView::ListsFetched(Some(lists)) => {
            lemma_populate_wf(s, lists);
        },
        EventView::ListCreated(Some(list)) => {
            lemma_add_list_wf(s, list);
        },
        EventView::Message(MessageView::Tasks(TasksActionView::PopulateLists(lists))) => {
            lemma_populate_wf(s, lists);
        },
        EventView::Message(MessageView::Tasks(TasksActionView::AddList(list))) => {
            lemma_add_list_wf(s, list);
        },
        EventView::Message(
            MessageView::Application(ApplicationActionView::Dialog(DialogActionView::Complete)),
        ) => {
            if s.dialog_pages.len() > 0 {
                lemma_complete_wf(s.closed(), s.dialog_pages[0]);
            }
        },
        _ => {},
    }
}

/// Showing lists keeps the state well formed.
pub(crate) proof fn lemma_populate_wf(s: TasksView, lists: Seq<ListView>)
    requires
        s.wf(),
        s.has_room(lists.len() as int),
    ensures
        s.populate(lists).0.wf(),
{
    s.nav_model.lemma_with_new_items_wf(lists);
    let after = s.with_lists(lists);
    if after.nav_model.items.len() > 0 {
        lemma_select_wf(after, after.nav_model.items[0].id);
    }
}

/// Appending a list keeps the state well formed.
pub(crate) proof fn lemma_add_list_wf(s: TasksView, list: ListView)
    requires
        s.wf(),
        s.has_room(1),
    ensures
        s.add_list(list).0.wf(),
{
    s.nav_model.lemma_with_new_items_wf(seq![list]);
    let after = s.with_lists(seq![list]);
    lemma_select_wf(after, after.nav_model.items.last().id);
}

/// Every step keeps the state well formed: navigation items keep distinct names, none of them
/// a name yet to be given, and the active item is one of them.
pub proof fn law_steps_keep_wf(r: RuntimeView)
    requires
        r.tasks.wf(),
        r.ready(),
    ensures
        r.stepped().tasks.wf(),
{
    let s = r.tasks;
    match r.agenda[0] {
        JobView::Handle(event) => {
            lemma_handle_wf(s, event);
        },
        JobView::ServeContent(content::OutputView::ToggleHideCompleted(list)) => {
            if let Some(shown) = s.nav_model.resolve(None) {
                s.nav_model.lemma_with_list(
                    s.nav_model.active->0,
                    ListView { hide_completed: list.hide_completed, ..shown },
                );
            }
        },
        JobView::RemoveActiveItem => {
            law_remove_active_item(s.nav_model);
        },
        _ => {},
    }
}

/// Removing the active item removes that item alone: the others stay, in order, and none is
/// active.
pub proof fn law_remove_active_item(nav: NavView)
    requires
        nav.wf(),
    ensures
        nav.without_active().wf(),
        nav.active is None ==> nav.without_active() == nav,
        nav.active matches Some(id) ==> {
            let i = nav.position(id);
            &&& 0 <= i < nav.items.len()
            &&& nav.items[i].id == id
            &&& nav.without_active().items == nav.items.take(i) + nav.items.skip(i + 1)
            &&& !nav.without_active().has(id)
            &&& nav.without_active().active is None
        },
{
    if let Some(id) = nav.active {
        let i = nav.position(id);
        assert(nav.found_at(i, id));
        let after = nav.without_active();
        assert(after.items =~= nav.items.take(i) + nav.items.skip(i + 1));
        if after.has(id) {
            let k = after.position(id);
            assert(after.found_at(k, id));
            if k < i {
                assert(after.items[k] == nav.items[k]);
            } else {
                assert(after.items[k] == nav.items[k + 1]);
            }
        }
        assert forall|a: int, b: int| 0 <= a < b < after.items.len() implies (
        #[trigger] after.items[a]).id != (#[trigger] after.items[b]).id by {
            let x = if a < i {
                a
            } else {
                a + 1
            };
            let y = if b < i {
                b
            } else {
                b + 1
            };
            assert(after.items[a] == nav.items[x]);
            assert(after.items[b] == nav.items[y]);
        }
        assert forall|a: int| 0 <= a < after.items.len() implies (#[trigger] after.items[a]).id
            < after.next by {
            let x = if a < i {
                a
            } else {
                a + 1
            };
            assert(after.items[a] == nav.items[x]);
        }
    }
}

/// An item that is there after new ones were appended was there before, or has a new name.
proof fn lemma_new_names(nav: NavView, lists: Seq<ListView>, id: Entity)
    requires
        0 <= nav.next,
        nav.next + lists.len() <= Entity::MAX,
        nav.with_new_items(lists).has(id),
    ensures
        nav.has(id) || nav.next <= id,
{
    let after = nav.with_new_items(lists);
    let p = after.position(id);
    assert(after.found_at(p, id));
    if p < nav.items.len() {
        assert forall|j: int| 0 <= j < p implies (#[trigger] nav.items[j]).id != id by {
            assert(after.items[j] == nav.items[j]);
        }
        assert(nav.found_at(p, id));
    }
}

/// An item that is there after lists were shown was there before, or has a new name.
proof fn lemma_populate_names(s: TasksView, lists: Seq<ListView>, id: Entity)
    requires
        s.wf(),
        s.has_room(lists.len() as int),
        s.populate(lists).0.nav_model.has(id),
    ensures
        s.nav_model.has(id) || s.nav_model.next <= id,
{
    let after = s.with_lists(lists);
    if after.nav_model.items.len() > 0 {
        after.nav_model.lemma_activated(after.nav_model.items[0].id);
    }
    lemma_new_names(s.nav_model, lists, id);
}

/// An item that is there after a list was added was there before, or has a new name.
proof fn lemma_add_list_names(s: TasksView, list: ListView, id: Entity)
    requires
        s.wf(),
        s.has_room(1),
        s.add_list(list).0.nav_model.has(id),
    ensures
        s.nav_model.has(id) || s.nav_model.next <= id,
{
    let after = s.with_lists(seq![list]);
    after.nav_model.lemma_activated(after.nav_model.items.last().id);
    lemma_new_names(s.nav_model, seq![list], id);
}

/// Carrying out a dialog leaves the names of the navigation items as they are.
proof fn lemma_complete_names(s: TasksView, page: DialogPageView, id: Entity)
    ensures
        s.complete(page).0.nav_model.has(id) == s.nav_model.has(id),
        s.complete(page).0.nav_model.next == s.nav_model.next,
{
    let nav = s.nav_model;
    match page {
        DialogPageView::Rename(entity, name) => {
            if let Some(list) = nav.resolve(entity) {
                let renamed = ListView { name, ..list };
                nav.lemma_with_list(nav.target(entity)->0, renamed);
                nav.with_list(nav.target(entity)->0, renamed).lemma_with_active_text(name);
            }
        },
        DialogPageView::Icon(entity, icon, _) => {
            let shown = match nav.resolve(entity) {
                Some(list) => nav.with_active_text(list.name).with_active_icon(icon),
                None => nav,
            };
            if let Some(list) = nav.resolve(entity) {
                nav.lemma_with_active_text(list.name);
                nav.with_active_text(list.name).lemma_with_active_icon(icon);
            }
            if let Some(list) = shown.resolve(None) {
                shown.lemma_with_list(shown.active->0, ListView { icon: Some(icon), ..list });
            }
        },
        _ => {},
    }
}

/// A name is never given twice: the names yet to be given only become fewer, and an item that
/// is there after a step was there before it, or has a name that was yet to be given.
pub proof fn law_names_are_new(r: RuntimeView, id: Entity)
    requires
        r.tasks.wf(),
        r.ready(),
    ensures
        r.tasks.nav_model.next <= r.stepped().tasks.nav_model.next,
        r.stepped().tasks.nav_model.has(id) ==> r.tasks.nav_model.has(id)
            || r.tasks.nav_model.next <= id,
{
    let s = r.tasks;
    let t = r.stepped().tasks;
    match r.agenda[0] {
        JobView::Handle(EventView::NavSelected(chosen)) => {
            s.nav_model.lemma_activated(chosen);
        },
        JobView::Handle(EventView::ListsFetched(Some(lists))) => {
            if t.nav_model.has(id) {
                lemma_populate_names(s, lists, id);
            }
        },
        JobView::Handle(EventView::ListCreated(Some(list))) => {
            if t.nav_model.has(id) {
                lemma_add_list_names(s, list, id);
            }
        },
        JobView::Handle(
            EventView::Message(MessageView::Tasks(TasksActionView::PopulateLists(lists))),
        ) => {
            if t.nav_model.has(id) {
                lemma_populate_names(s, lists, id);
            }
        },
        JobView::Handle(
            EventView::Message(MessageView::Tasks(TasksActionView::AddList(list))),
        ) => {
            if t.nav_model.has(id) {
                lemma_add_list_names(s, list, id);
            }
        },
        JobView::Handle(
            EventView::Message(
                MessageView::Application(ApplicationActionView::Dialog(DialogActionView::Complete)),
            ),
        ) => {
            if s.dialog_pages.len() > 0 {
                lemma_complete_names(s.closed(), s.dialog_pages[0], id);
            }
        },
        JobView::ServeContent(content::OutputView::ToggleHideCompleted(list)) => {
            if let Some(shown) = s.nav_model.resolve(None) {
                s.nav_model.lemma_with_list(
                    s.nav_model.active->0,
                    ListView { hide_completed: list.hide_completed, ..shown },
                );
            }
        },
        JobView::RemoveActiveItem => {
            law_remove_active_item(s.nav_model);
            if t.nav_model.has(id) && !s.nav_model.has(id) {
                let p = t.nav_model.position(id);
                assert(t.nav_model.found_at(p, id));
                let q = if p < s.nav_model.position(s.nav_model.active->0) {
                    p
                } else {
                    p + 1
                };
                assert(t.nav_model.items[p] == s.nav_model.items[q]);
                s.nav_model.lemma_found(q);
            }
        },
        _ => {},
    }
}

/// Showing lists puts an item for each behind those that are there, in order, makes the first
/// item of all the active one, and hands its list to the content page.
pub proof fn law_populate(s: TasksView, lists: Seq<ListView>)
    requires
        s.wf(),
        s.has_room(lists.len() as int),
        s.nav_model.items.len() + lists.len() > 0,
    ensures
        ({
            let (t, jobs) = s.populate(lists);
            let n = s.nav_model.items.len() as int;
            &&& t.nav_model.items.len() == n + lists.len()
            &&& t.nav_model.items.take(n) == s.nav_model.items
            &&& forall|i: int|
                0 <= i < lists.len() ==> {
                    &&& (#[trigger] t.nav_model.items[n + i]).list == lists[i]
                    &&& t.nav_model.items[n + i].text == lists[i].name
                    &&& t.nav_model.items[n + i].icon == nav::list_icon(lists[i])
                }
            &&& t.nav_model.active == Some(t.nav_model.items[0].id)
            &&& t.nav_model.resolve(None) == Some(t.nav_model.items[0].list)
            &&& jobs == seq![
                model::to_content(
                    content::MessageView::SetList(Some(t.nav_model.items[0].list)),
                ),
            ]
        }),
{
    s.nav_model.lemma_with_new_items_wf(lists);
    let after = s.with_lists(lists);
    after.nav_model.lemma_found(0);
    let t = s.populate(lists).0;
    let n = s.nav_model.items.len() as int;
    assert(t.nav_model.items == after.nav_model.items);
    assert(t.nav_model.items.take(n) =~= s.nav_model.items);
    lemma_populate_wf(s, lists);
    t.nav_model.lemma_found(0);
}

/// A list that is added stands last, is the active one, and is handed to the content page.
pub proof fn law_add_list(s: TasksView, list: ListView)
    requires
        s.wf(),
        s.has_room(1),
    ensures
        ({
            let (t, jobs) = s.add_list(list);
            &&& t.nav_model.items.drop_last() == s.nav_model.items
            &&& t.nav_model.items.last().list == list
            &&& t.nav_model.active == Some(t.nav_model.items.last().id)
            &&& t.nav_model.resolve(None) == Some(list)
            &&& jobs == seq![model::to_content(content::MessageView::SetList(Some(list)))]
        }),
{
    s.nav_model.lemma_with_new_items_wf(seq![list]);
    let after = s.with_lists(seq![list]);
    let n = after.nav_model.items.len() - 1;
    after.nav_model.lemma_found(n);
    after.nav_model.lemma_activated(after.nav_model.items[n].id);
    let t = s.add_list(list).0;
    assert(t.nav_model.items.drop_last() =~= s.nav_model.items);
    lemma_add_list_wf(s, list);
    t.nav_model.lemma_found(n);
}

/// A turn of the runtime: its next step with the answer to the command that it hands out, or
/// something new.
pub enum Turn {
    Step(Option<EventView>),
    Submit(EventView),
}

/// Whether an answer is one to the command of a job. See [`crate::message::Command`].
pub open spec fn fits(job: JobView, answer: Option<EventView>) -> bool {
    match runtime::job_command(job) {
        Some(CommandView::UpdateContent(_)) => answer matches Some(EventView::ContentUpdated(_)),
        Some(CommandView::UpdateDetails(_)) => answer matches Some(
            EventView::DetailsUpdated(_, _),
        ),
        Some(CommandView::SetDueDate(_)) => answer matches Some(EventView::DueDateSet(_)),
        Some(CommandView::FetchLists) => answer matches Some(EventView::ListsFetched(_)),
        Some(CommandView::CreateList(_)) => answer matches Some(EventView::ListCreated(_)),
        Some(CommandView::ExportTasks(_)) => answer matches Some(EventView::TasksExported(_)),
        Some(CommandView::ReadCalendar) => answer matches Some(EventView::CalendarRead(_)),
        Some(CommandView::TestConnection { .. }) => answer matches Some(
            EventView::ConnectionTested(_),
        ),
        _ => answer is None,
    }
}

impl RuntimeView {
    /// After one turn.
    pub open spec fn turned(self, turn: Turn) -> RuntimeView {
        match turn {
            Turn::Step(Some(event)) => self.stepped().answered(event),
            Turn::Step(None) => self.stepped(),
            Turn::Submit(event) => self.submitted(event),
        }
    }

    /// Whether a turn can be taken: a step must be possible, and the answer one to its command.
    pub open spec fn allows(self, turn: Turn) -> bool {
        match turn {
            Turn::Step(answer) => self.ready() && fits(self.agenda[0], answer),
            Turn::Submit(_) => true,
        }
    }

    /// After some turns.
    pub open spec fn ran(self, turns: Seq<Turn>) -> RuntimeView
        decreases turns.len(),
    {
        if turns.len() == 0 {
            self
        } else {
            self.turned(turns[0]).ran(turns.drop_first())
        }
    }

    /// Whether some turns can be taken, one after the other.
    pub open spec fn can_run(self, turns: Seq<Turn>) -> bool
        decreases turns.len(),
    {
        turns.len() > 0 ==> self.allows(turns[0]) && self.turned(turns[0]).can_run(
            turns.drop_first(),
        )
    }

    /// The commands that are handed out in some turns, in order.
    pub open spec fn commands(self, turns: Seq<Turn>) -> Seq<CommandView>
        decreases turns.len(),
    {
        if turns.len() == 0 {
            Seq::empty()
        } else {
            let later = self.turned(turns[0]).commands(turns.drop_first());
            match (turns[0], runtime::job_command(self.agenda[0])) {
                (Turn::Step(_), Some(command)) => seq![command] + later,
                _ => later,
            }
        }
    }

    /// Whether each of the steps among some turns finds more than `n` jobs, and more than are
    /// new besides.
    pub open spec fn busy(self, n: nat, turns: Seq<Turn>) -> bool
        decreases turns.len(),
    {
        if turns.len() == 0 {
            true
        } else {
            let next = self.turned(turns[0]);
            match turns[0] {
                Turn::Step(_) => self.agenda.len() > n && next.busy(n, turns.drop_first()),
                Turn::Submit(_) => next.busy(n + 1, turns.drop_first()),
            }
        }
    }
}

/// The jobs of handling what is new in some turns, in order.
pub open spec fn submissions(turns: Seq<Turn>) -> Seq<JobView>
    decreases turns.len(),
{
    if turns.len() == 0 {
        Seq::empty()
    } else {
        match turns[0] {
            Turn::Submit(event) => seq![JobView::Handle(event)] + submissions(turns.drop_first()),
            Turn::Step(_) => submissions(turns.drop_first()),
        }
    }
}

/// What stands behind a job waits until all is done that the job leads to, the answers to its
/// commands included: while more jobs are due than stood behind it or are new, those that stood
/// behind it still stand there as they were, and what is new stands last, in order.
pub proof fn law_later_jobs_wait(r: RuntimeView, behind: Seq<JobView>, turns: Seq<Turn>)
    requires
        behind.len() <= r.agenda.len(),
        behind == r.agenda.skip(r.agenda.len() - behind.len()),
        r.busy(behind.len(), turns),
    ensures
        ({
            let after = r.ran(turns).agenda;
            let waiting = behind + submissions(turns);
            &&& waiting.len() <= after.len()
            &&& after.skip(after.len() - waiting.len()) == waiting
        }),
    decreases turns.len(),
{
    if turns.len() > 0 {
        let next = r.turned(turns[0]);
        let later = turns.drop_first();
        match turns[0] {
            Turn::Step(_) => {
                assert(next.agenda.skip(next.agenda.len() - behind.len()) =~= behind);
                law_later_jobs_wait(next, behind, later);
            },
            Turn::Submit(event) => {
                let more = behind.push(JobView::Handle(event));
                assert(next.agenda.skip(next.agenda.len() - more.len()) =~= more);
                law_later_jobs_wait(next, more, later);
                assert(more + submissions(later) =~= behind + submissions(turns));
            },
        }
    } else {
        assert(behind + submissions(turns) =~= behind);
    }
}

/// Whatever happens, and whatever the answers are, the state stays well formed.
pub proof fn law_runs_keep_wf(r: RuntimeView, turns: Seq<Turn>)
    requires
        r.tasks.wf(),
        r.can_run(turns),
    ensures
        r.ran(turns).tasks.wf(),
    decreases turns.len(),
{
    if turns.len() > 0 {
        if let Turn::Step(_) = turns[0] {
            law_steps_keep_wf(r);
        }
        law_runs_keep_wf(r.turned(turns[0]), turns.drop_first());
    }
}

/// An answer is handled next, and something new when all else is done.
pub proof fn law_answers_come_first(r: RuntimeView, event: EventView)
    ensures
        r.answered(event).agenda[0] == JobView::Handle(event),
        r.answered(event).agenda.drop_first() == r.agenda,
        r.submitted(event).agenda.last() == JobView::Handle(event),
        r.submitted(event).agenda.drop_last() == r.agenda,
{
    assert(r.answered(event).agenda.drop_first() =~= r.agenda);
    assert(r.submitted(event).agenda.drop_last() =~= r.agenda);
}

/// Opening a dialog leaves those that are open in front of it, in order.
pub proof fn law_open_dialogs_stay_in_front(s: TasksView, page: DialogPageView)
    ensures
        ({
            let pages = s.update_dialog(DialogActionView::Open(page)).0.dialog_pages;
            &&& s.dialog_pages.len() <= pages.len() <= s.dialog_pages.len() + 1
            &&& pages.take(s.dialog_pages.len() as int) == s.dialog_pages
        }),
{
    let pages = s.update_dialog(DialogActionView::Open(page)).0.dialog_pages;
    assert(pages.take(s.dialog_pages.len() as int) =~= s.dialog_pages);
}

/// A dialog that is opened and closed again leaves the state as it was, if no other was open.
pub proof fn law_open_then_close(s: TasksView, page: DialogPageView)
    requires
        s.dialog_pages.len() == 0,
    ensures
        s.update_dialog(DialogActionView::Open(page)).0.update_dialog(DialogActionView::Close).0
            == s,
{
    let t = s.update_dialog(DialogActionView::Open(page)).0;
    assert(t.update_dialog(DialogActionView::Close).0.dialog_pages =~= s.dialog_pages);
}

/// A new list is asked for under the name that stands in the dialog, whatever was typed before.
pub proof fn law_new_list_has_last_name(s: TasksView, first: Seq<char>, name: Seq<char>)
    requires
        s.dialog_pages.len() == 0,
    ensures
        ({
            let opened = s.update_dialog(DialogActionView::Open(DialogPageView::New(first))).0;
            let edited = opened.update_dialog(
                DialogActionView::Update(DialogPageView::New(name)),
            ).0;
            let (done, jobs) = edited.update_dialog(DialogActionView::Complete);
            &&& done == s
            &&& jobs == seq![JobView::Perform(CommandView::CreateList(name))]
        }),
{
    let opened = s.update_dialog(DialogActionView::Open(DialogPageView::New(first))).0;
    let edited = opened.update_dialog(DialogActionView::Update(DialogPageView::New(name))).0;
    assert(edited.dialog_pages =~= seq![DialogPageView::New(name)]);
    let done = edited.update_dialog(DialogActionView::Complete).0;
    assert(done.dialog_pages =~= s.dialog_pages);
}

/// The escape key closes dialogs, the foremost first, before it closes the context drawer.
pub proof fn law_escape(s: TasksView)
    ensures
        s.dialog_pages.len() > 0 ==> {
            &&& s.escape().dialog_pages == s.dialog_pages.drop_first()
            &&& s.escape().show_context == s.show_context
        },
        s.dialog_pages.len() == 0 ==> {
            &&& s.escape().dialog_pages == s.dialog_pages
            &&& !s.escape().show_context
        },
{
}

/// Toggling the context drawer twice leaves the state as it was.
pub proof fn law_toggle_drawer_twice(s: TasksView)
    ensures
        ({
            let toggle = ApplicationActionView::ToggleContextDrawer;
            s.update_app(toggle).0.update_app(toggle).0 == s
        }),
{
}

/// Asking for a page of the context drawer shows that page, unless it was shown: then the
/// drawer is closed. The content page hears whether the drawer is open.
pub proof fn law_toggle_page(s: TasksView, page: ContextPage)
    ensures
        ({
            let (t, jobs) = s.update_app(ApplicationActionView::ToggleContextPage(page));
            &&& t.context_page == page
            &&& t.show_context <==> !(s.show_context && s.context_page == page)
            &&& jobs == seq![
                model::to_content(content::MessageView::ContextMenuOpen(t.show_context)),
            ]
            &&& t.update_app(ApplicationActionView::ToggleContextPage(page)).0.show_context
                == !t.show_context
        }),
{
}

/// A message is left for exactly the key bindings that match.
pub proof fn law_matching_keys(
    binds: Seq<MessageView>,
    matches: Seq<bool>,
    n: int,
    job: JobView,
)
    requires
        0 <= n <= binds.len(),
    ensures
        model::matched(binds, matches, n).contains(job) <==> exists|i: int|
            0 <= i < n && i < matches.len() && matches[i] && job == JobView::Handle(
                EventView::Message(#[trigger] binds[i]),
            ),
    decreases n,
{
    if n > 0 {
        law_matching_keys(binds, matches, n - 1, job);
        let before = model::matched(binds, matches, n - 1);
        let now = model::matched(binds, matches, n);
        let last = JobView::Handle(EventView::Message(binds[n - 1]));
        if n <= matches.len() && matches[n - 1] {
            assert(now == before.push(last));
            if before.contains(job) {
                let k = choose|k: int| 0 <= k < before.len() && before[k] == job;
                assert(now[k] == job);
            }
            if job == last {
                assert(now[before.len() as int] == job);
            }
            if now.contains(job) && job != last {
                let k = choose|k: int| 0 <= k < now.len() && now[k] == job;
                assert(before[k] == job);
            }
        }
    }
}

/// The text of each navigation item is the name of its list, and its icon that of its list.
pub open spec fn items_match_lists(nav: NavView) -> bool {
    forall|i: int|
        0 <= i < nav.items.len() ==> (#[trigger] nav.items[i]).text == nav.items[i].list.name
            && nav.items[i].icon == nav::list_icon(nav.items[i].list)
}

/// Whether carrying out a dialog keeps the texts and icons of the navigation items those of
/// their lists, where they were. A rename dialog does where it is about the active item, or
/// where the name is one that its list and the list of the active item have already. An icon
/// dialog does where it is about the active item, or about a list of the same name, or about
/// no list while the icon is one that the active item has already.
pub open spec fn keeps_match(nav: NavView, page: DialogPageView) -> bool {
    match page {
        DialogPageView::Rename(entity, name) => match nav.resolve(entity) {
            Some(list) => {
                ||| nav.target(entity) == nav.active
                ||| {
                    &&& list.name == name
                    &&& nav.resolve(None) matches Some(shown) ==> shown.name == name
                }
            },
            None => true,
        },
        DialogPageView::Icon(entity, icon, _) => match nav.resolve(None) {
            Some(shown) => match nav.resolve(entity) {
                Some(list) => list.name == shown.name,
                None => icon == nav::list_icon(shown),
            },
            None => true,
        },
        _ => true,
    }
}

/// Carrying out a rename dialog.
proof fn lemma_rename_matches(s: TasksView, entity: Option<Entity>, name: Seq<char>)
    requires
        s.wf(),
        items_match_lists(s.nav_model),
    ensures
        items_match_lists(s.rename(entity, name).0.nav_model) <==> keeps_match(
            s.nav_model,
            DialogPageView::Rename(entity, name),
        ),
{
    let nav = s.nav_model;
    if let Some(list) = nav.resolve(entity) {
        let id = nav.target(entity)->0;
        let p = nav.position(id);
        assert(nav.found_at(p, id));
        let renamed = ListView { name, ..list };
        nav.lemma_with_list(id, renamed);
        let with_list = nav.with_list(id, renamed);
        with_list.lemma_with_active_text(name);
        let done = s.rename(entity, name).0.nav_model;
        assert(done == with_list.with_active_text(name));
        assert(nav.items[p].text == list.name);
        if let Some(active) = nav.active {
            let q = nav.position(active);
            assert(nav.found_at(q, active));
            assert(done.items[q].text == name);
            assert(p != q ==> done.items[q].list == nav.items[q].list);
            assert(p != q ==> done.items[p].text == list.name);
            assert(done.items[p].list == renamed);
            assert(p == q ==> id == active);
            assert forall|i: int| 0 <= i < nav.items.len() && i != p && i != q implies
                #[trigger] done.items[i] == nav.items[i] by {}
        } else {
            assert(done.items[p].list == renamed);
            assert(done.items[p].text == list.name);
            assert forall|i: int| 0 <= i < nav.items.len() && i != p implies
                #[trigger] done.items[i] == nav.items[i] by {}
        }
    }
}

/// Carrying out an icon dialog.
proof fn lemma_icon_matches(s: TasksView, entity: Option<Entity>, icon: Seq<char>)
    requires
        s.wf(),
        items_match_lists(s.nav_model),
    ensures
        forall|search: Seq<char>|
            items_match_lists(s.set_icon(entity, icon).0.nav_model) <==> #[trigger] keeps_match(
                s.nav_model,
                DialogPageView::Icon(entity, icon, search),
            ),
{
    let nav = s.nav_model;
    let done = s.set_icon(entity, icon).0.nav_model;
    if let Some(active) = nav.active {
        let q = nav.position(active);
        assert(nav.found_at(q, active));
        let shown = nav.items[q].list;
        assert(nav.resolve(None) == Some(shown));
        assert(nav.items[q].text == shown.name);
        let changed = ListView { icon: Some(icon), ..shown };
        if let Some(list) = nav.resolve(entity) {
            nav.lemma_with_active_text(list.name);
            let texted = nav.with_active_text(list.name);
            texted.lemma_with_active_icon(icon);
            let iconed = texted.with_active_icon(icon);
            assert(iconed.has(active));
            assert(iconed.items[q].list == shown);
            iconed.lemma_with_list(active, changed);
            assert(done == iconed.with_list(active, changed));
            assert(done.items[q].text == list.name);
            assert(done.items[q].icon == icon);
        } else {
            nav.lemma_with_list(active, changed);
            assert(done == nav.with_list(active, changed));
            assert(done.items[q].text == shown.name);
            assert(done.items[q].icon == nav.items[q].icon);
        }
        assert(done.items[q].list == changed);
        assert forall|i: int| 0 <= i < nav.items.len() && i != q implies
            #[trigger] done.items[i] == nav.items[i] by {}
    }
}

/// The dialog that the next step carries out, if it carries out one.
pub open spec fn completed_next(r: RuntimeView) -> Option<DialogPageView> {
    let complete = JobView::Handle(
        EventView::Message(
            MessageView::Application(ApplicationActionView::Dialog(DialogActionView::Complete)),
        ),
    );
    if r.agenda[0] == complete && r.tasks.dialog_pages.len() > 0 {
        Some(r.tasks.dialog_pages[0])
    } else {
        None
    }
}

/// Every step keeps the texts and icons of the navigation items those of their lists, but for
/// the rename and icon dialogs that do not.
pub proof fn law_items_match_lists(r: RuntimeView)
    requires
        r.tasks.wf(),
        r.ready(),
        items_match_lists(r.tasks.nav_model),
    ensures
        items_match_lists(r.stepped().tasks.nav_model) <==> (completed_next(r) matches Some(page)
            ==> keeps_match(r.tasks.nav_model, page)),
{
    let s = r.tasks;
    match r.agenda[0] {
        JobView::Handle(
            EventView::Message(
                MessageView::Application(ApplicationActionView::Dialog(DialogActionView::Complete)),
            ),
        ) => {
            if s.dialog_pages.len() > 0 {
                match s.dialog_pages[0] {
                    DialogPageView::Rename(entity, name) => {
                        lemma_rename_matches(s.closed(), entity, name);
                    },
                    DialogPageView::Icon(entity, icon, search) => {
                        lemma_icon_matches(s.closed(), entity, icon);
                        assert(keeps_match(
                            s.nav_model,
                            DialogPageView::Icon(entity, icon, search),
                        ) <==> items_match_lists(s.closed().set_icon(entity, icon).0.nav_model));
                    },
                    _ => {},
                }
            }
        },
        JobView::ServeContent(content::OutputView::ToggleHideCompleted(list)) => {
            if let Some(shown) = s.nav_model.resolve(None) {
                let id = s.nav_model.active->0;
                assert(s.nav_model.found_at(s.nav_model.position(id), id));
            }
        },
        JobView::RemoveActiveItem => {
            law_remove_active_item(s.nav_model);
        },
        _ => {},
    }
}

/// A rename dialog that is opened on an item and completed with another name renames that
/// list: in the navigation bar, in the storage and on the content page.
pub proof fn law_rename(s: TasksView, id: Entity, name: Seq<char>)
    requires
        s.wf(),
        s.dialog_pages.len() == 0,
        s.nav_model.has(id),
    ensures
        ({
            let list = s.nav_model.data(id)->0;
            let opened = s.update_app(
                ApplicationActionView::NavMenuAction(NavMenuAction::Rename(id)),
            ).0;
            let edited = opened.update_dialog(
                DialogActionView::Update(DialogPageView::Rename(Some(id), name)),
            ).0;
            let (done, jobs) = edited.update_dialog(DialogActionView::Complete);
            let renamed = ListView { name, ..list };
            &&& opened.dialog_pages == seq![DialogPageView::Rename(Some(id), list.name)]
            &&& done.dialog_pages.len() == 0
            &&& done.nav_model.data(id) == Some(renamed)
            &&& jobs == TasksView::list_changed(renamed)
        }),
{
    let nav = s.nav_model;
    let list = nav.data(id)->0;
    let opened = s.update_app(ApplicationActionView::NavMenuAction(NavMenuAction::Rename(id))).0;
    assert(opened.dialog_pages =~= seq![DialogPageView::Rename(Some(id), list.name)]);
    let page = DialogPageView::Rename(Some(id), name);
    let edited = opened.update_dialog(DialogActionView::Update(page)).0;
    assert(edited.dialog_pages =~= seq![page]);
    let renamed = ListView { name, ..list };
    assert(nav.found_at(nav.position(id), id));
    nav.lemma_with_list(id, renamed);
    let with_list = nav.with_list(id, renamed);
    with_list.lemma_with_active_text(name);
    let done = edited.update_dialog(DialogActionView::Complete).0;
    assert(done.nav_model == with_list.with_active_text(name));
    assert(done.nav_model.has(id));
}

/// A configuration with one entry stored.
pub open spec fn with_entry(config: ConfigView, entry: ConfigEntryView) -> ConfigView {
    match entry {
        ConfigEntryView::AppTheme(app_theme) => ConfigView { app_theme, ..config },
        ConfigEntryView::HideCompleted(hide_completed) => ConfigView { hide_completed, ..config },
        ConfigEntryView::LlmProvider(llm_provider) => ConfigView { llm_provider, ..config },
        ConfigEntryView::LlmModel(llm_model) => ConfigView { llm_model, ..config },
        ConfigEntryView::LlmApiBase(llm_api_base) => ConfigView { llm_api_base, ..config },
    }
}

/// A stored configuration after the jobs that store to it.
pub open spec fn stored(config: ConfigView, jobs: Seq<JobView>) -> ConfigView
    decreases jobs.len(),
{
    if jobs.len() == 0 {
        config
    } else {
        match jobs.last() {
            JobView::Perform(CommandView::StoreConfig(entry)) => with_entry(
                stored(config, jobs.drop_last()),
                entry,
            ),
            _ => stored(config, jobs.drop_last()),
        }
    }
}

/// Whether a job stores to the configuration.
pub open spec fn stores(job: JobView) -> bool {
    job matches JobView::Perform(CommandView::StoreConfig(_))
}

/// Jobs of which none stores leave a stored configuration as it is.
proof fn lemma_none_stores(config: ConfigView, jobs: Seq<JobView>)
    requires
        forall|i: int| 0 <= i < jobs.len() ==> !stores(#[trigger] jobs[i]),
    ensures
        stored(config, jobs) == config,
    decreases jobs.len(),
{
    if jobs.len() > 0 {
        assert(!stores(jobs[jobs.len() - 1]));
        let rest = jobs.drop_last();
        assert forall|i: int| 0 <= i < rest.len() implies !stores(#[trigger] rest[i]) by {
            assert(rest[i] == jobs[i]);
        }
        lemma_none_stores(config, rest);
    }
}

/// The messages of key bindings store nothing by themselves.
proof fn lemma_matched_stores_nothing(binds: Seq<MessageView>, matches: Seq<bool>, n: int)
    ensures
        forall|i: int|
            0 <= i < model::matched(binds, matches, n).len() ==> !stores(
                #[trigger] model::matched(binds, matches, n)[i],
            ),
    decreases n,
{
    if n > 0 {
        lemma_matched_stores_nothing(binds, matches, n - 1);
        let before = model::matched(binds, matches, n - 1);
        let now = model::matched(binds, matches, n);
        assert forall|i: int| 0 <= i < now.len() implies !stores(#[trigger] now[i]) by {
            if i < before.len() {
                assert(now[i] == before[i]);
            }
        }
    }
}

/// Carrying out a dialog stores nothing to the configuration.
proof fn lemma_complete_stores_nothing(s: TasksView, page: DialogPageView)
    ensures
        forall|i: int|
            0 <= i < s.complete(page).1.len() ==> !stores(#[trigger] s.complete(page).1[i]),
        s.complete(page).0.config == s.config,
{
}

/// An action on the application as a whole stores what it changes of the configuration.
proof fn lemma_update_app_stores(s: TasksView, action: ApplicationActionView)
    ensures
        stored(s.config, s.update_app(action).1) == s.update_app(action).0.config,
        !s.config_handler ==> s.update_app(action).0.config == s.config,
        !s.config_handler ==> forall|i: int|
            0 <= i < s.update_app(action).1.len() ==> !stores(#[trigger] s.update_app(action).1[i]),
{
    let (t, jobs) = s.update_app(action);
    match action {
        ApplicationActionView::Key(matches) => {
            lemma_matched_stores_nothing(s.key_binds, matches, s.key_binds.len() as int);
            lemma_none_stores(s.config, jobs);
        },
        ApplicationActionView::AppTheme(_) => {
            reveal_with_fuel(stored, 2);
        },
        ApplicationActionView::ToggleHideCompleted(_) => {
            reveal_with_fuel(stored, 3);
        },
        ApplicationActionView::Dialog(DialogActionView::Complete) => {
            if s.dialog_pages.len() > 0 {
                lemma_complete_stores_nothing(s.closed(), s.dialog_pages[0]);
            }
            lemma_none_stores(s.config, jobs);
        },
        _ => {
            lemma_none_stores(s.config, jobs);
        },
    }
}

/// Saving the preferences stores what it changes of the configuration.
proof fn lemma_save_stores(s: TasksView)
    ensures
        stored(s.config, s.save().1) == s.save().0.config,
        !s.config_handler ==> s.save().0.config == s.config,
        !s.config_handler ==> forall|i: int|
            0 <= i < s.save().1.len() ==> !stores(#[trigger] s.save().1[i]),
{
    let jobs = s.save().1;
    if s.config_handler {
        let three = jobs.drop_last();
        let two = three.drop_last();
        let one = two.drop_last();
        assert(stored(s.config, one.drop_last()) == s.config);
        assert(stored(s.config, one) == with_entry(
            s.config,
            ConfigEntryView::LlmProvider(s.preferences.provider()),
        ));
        assert(stored(s.config, two) == with_entry(
            stored(s.config, one),
            ConfigEntryView::LlmModel(s.preferences.model()),
        ));
        assert(stored(s.config, three) == with_entry(
            stored(s.config, two),
            ConfigEntryView::LlmApiBase(s.preferences.api_base),
        ));
        assert(stored(s.config, jobs) == stored(s.config, three));
    } else {
        lemma_none_stores(s.config, jobs);
    }
}

/// The stored configuration follows the one in memory: where they agree before an event, they
/// agree once the jobs of the event that store are done. Without a configuration to store to,
/// neither changes.
pub proof fn law_stored_config_follows(s: TasksView, event: EventView)
    requires
        s.admits(event),
    ensures
        stored(s.config, s.handle(event).1) == s.handle(event).0.config,
        !s.config_handler ==> s.handle(event).0.config == s.config,
        !s.config_handler ==> forall|i: int|
            0 <= i < s.handle(event).1.len() ==> !stores(#[trigger] s.handle(event).1[i]),
{
    let jobs = s.handle(event).1;
    match event {
        EventView::Message(MessageView::Application(action)) => {
            lemma_update_app_stores(s, action);
        },
        EventView::Message(MessageView::Preferences(PreferencesMessageView::Save)) => {
            lemma_save_stores(s);
        },
        _ => {
            lemma_none_stores(s.config, jobs);
        },
    }
}

/// The offered models are distinct.
pub(crate) proof fn lemma_models_distinct(i: int, j: int)
    requires
        0 <= i < j < preferences::model_options().len(),
    ensures
        preferences::model_options()[i] != preferences::model_options()[j],
{
    reveal_strlit("gpt-4o-mini");
    reveal_strlit("gpt-4o");
    reveal_strlit("gpt-4.1");
    reveal_strlit("gpt-5-mini");
    reveal_strlit("gpt-5");
    reveal_strlit("o4-mini");
    reveal_strlit("o3-mini-high");
    let a = preferences::model_options()[i];
    let b = preferences::model_options()[j];
    assert(a.len() != b.len() || a[0] != b[0] || a[4] != b[4] || a[5] != b[5]);
}

/// An option that stands nowhere before is found where it stands.
pub(crate) proof fn lemma_index_from(options: Seq<Seq<char>>, i: int, k: int)
    requires
        0 <= k <= i < options.len(),
        forall|j: int| 0 <= j < i ==> #[trigger] options[j] != options[i],
    ensures
        preferences::index_from(options, options[i], k) == Some(i),
    decreases i - k,
{
    if k < i {
        assert(options[k] != options[i]);
        lemma_index_from(options, i, k + 1);
    }
}

/// What is saved is what the next start finds, where the configuration and the key were stored:
/// the same provider and model are chosen, the same address stands there, or the default one in
/// place of an empty one, and the key is the one without white space at its ends, whatever the
/// environment says.
pub proof fn law_save_then_load(s: TasksView, flags: FlagsView)
    requires
        s.wf(),
        s.config_handler,
        ({
            let save = MessageView::Preferences(PreferencesMessageView::Save);
            flags.config == s.update(save).0.config
        }),
        flags.stored_key == StoredKeyView::Password(text::trimmed(s.preferences.api_key)),
    ensures
        ({
            let save = MessageView::Preferences(PreferencesMessageView::Save);
            let jobs = s.update(save).1;
            let key = text::trimmed(s.preferences.api_key);
            let loaded = flags.tasks().preferences;
            &&& jobs.last() == JobView::Perform(CommandView::StoreKey(key))
            &&& stored(s.config, jobs) == flags.config
            &&& loaded.api_key == key
            &&& loaded.provider() == s.preferences.provider()
            &&& loaded.model() == s.preferences.model()
            &&& 0 <= s.preferences.selected_provider < s.preferences.provider_options.len()
                ==> loaded.selected_provider == s.preferences.selected_provider
            &&& 0 <= s.preferences.selected_model < s.preferences.model_options.len()
                ==> loaded.selected_model == s.preferences.selected_model
            &&& s.preferences.api_base.len() > 0 ==> loaded.api_base == s.preferences.api_base
            &&& s.preferences.api_base.len() == 0 ==> loaded.api_base
                == preferences::DEFAULT_API_BASE@
        }),
{
    lemma_save_stores(s);
    reveal_strlit("OpenAI");
    reveal_strlit("gpt-4o-mini");
    reveal_strlit("gpt-4o");
    reveal_strlit("gpt-4.1");
    reveal_strlit("gpt-5-mini");
    reveal_strlit("gpt-5");
    reveal_strlit("o4-mini");
    reveal_strlit("o3-mini-high");
    let models = preferences::model_options();
    let i = s.preferences.selected_model;
    let at = if 0 <= i < models.len() {
        i
    } else {
        0
    };
    assert(s.preferences.model() == models[at]);
    assert(models[at].len() > 0);
    assert forall|j: int| 0 <= j < at implies #[trigger] models[j] != models[at] by {
        lemma_models_distinct(j, at);
    }
    lemma_index_from(models, at, 0);
    let providers = preferences::provider_options();
    assert(s.preferences.provider() == providers[0]);
    lemma_index_from(providers, 0, 0);
}

/// Only the preferences themselves, and the end of a connection test, change the preferences.
pub proof fn law_preferences_stay(s: TasksView, event: EventView)
    requires
        s.admits(event),
        !(event matches EventView::Message(MessageView::Preferences(_))),
        !(event is ConnectionTested),
    ensures
        s.handle(event).0.preferences == s.preferences,
{
}

/// Whether a job tests the connection.
pub open spec fn tests(job: JobView) -> bool {
    job matches JobView::Perform(CommandView::TestConnection { .. })
}

/// Carrying out a dialog tests no connection.
proof fn lemma_complete_tests_nothing(s: TasksView, page: DialogPageView)
    ensures
        forall|i: int|
            0 <= i < s.complete(page).1.len() ==> !tests(#[trigger] s.complete(page).1[i]),
{
}

/// An action on the application as a whole tests no connection.
proof fn lemma_update_app_tests_nothing(s: TasksView, action: ApplicationActionView)
    ensures
        forall|i: int|
            0 <= i < s.update_app(action).1.len() ==> !tests(#[trigger] s.update_app(action).1[i]),
{
    let jobs = s.update_app(action).1;
    match action {
        ApplicationActionView::Key(matches) => {
            assert forall|i: int| 0 <= i < jobs.len() implies !tests(#[trigger] jobs[i]) by {
                law_matching_keys(s.key_binds, matches, s.key_binds.len() as int, jobs[i]);
                assert(jobs.contains(jobs[i]));
            }
        },
        ApplicationActionView::Dialog(DialogActionView::Complete) => {
            if s.dialog_pages.len() > 0 {
                lemma_complete_tests_nothing(s.closed(), s.dialog_pages[0]);
            }
        },
        _ => {},
    }
}

/// A connection is tested on request alone, and with a key that is not empty and has no white
/// space at its ends.
pub proof fn law_test_needs_key(s: TasksView, event: EventView, i: int)
    requires
        s.admits(event),
        0 <= i < s.handle(event).1.len(),
        tests(s.handle(event).1[i]),
    ensures
        event == EventView::Message(MessageView::Preferences(PreferencesMessageView::Test)),
        s.handle(event).1[i] == JobView::Perform(
            CommandView::TestConnection {
                url: preferences::models_url(s.preferences.api_base),
                key: text::trimmed(s.preferences.api_key),
                timeout_secs: preferences::TEST_TIMEOUT_SECS,
            },
        ),
        text::trimmed(s.preferences.api_key).len() > 0,
        s.handle(event).0.preferences.testing,
{
    match event {
        EventView::Message(MessageView::Application(action)) => {
            lemma_update_app_tests_nothing(s, action);
        },
        EventView::Message(MessageView::Preferences(message)) => {},
        EventView::Message(MessageView::Tasks(action)) => {},
        EventView::NavSelected(id) => {},
        EventView::ContentUpdated(outputs) => {},
        EventView::DetailsUpdated(_, outputs) => {},
        EventView::ListsFetched(lists) => {},
        EventView::ListCreated(list) => {},
        _ => {},
    }
}

/// A connection test that was begun is over once its outcome is there, and then another can be
/// begun from the settings.
pub proof fn law_test_ends(s: TasksView, outcome: preferences::TestOutcomeView)
    ensures
        ({
            let t = s.handle(EventView::ConnectionTested(outcome)).0;
            &&& !t.preferences.testing
            &&& t.preferences.status_text() == preferences::outcome_text(outcome)
            &&& t.ai_section().rows[4]->buttons[0].on_press == Some(
                MessageView::Preferences(PreferencesMessageView::Test),
            )
        }),
{
}

/// A theme that is chosen from the settings is the one that the settings then show, and the
/// one that is set when the desktop asks for it.
pub proof fn law_theme_choice(s: TasksView, index: int)
    requires
        s.config_handler,
        0 <= index < 3,
    ensures
        ({
            let t = s.update_app(ApplicationActionView::AppTheme(index)).0;
            &&& t.appearance_section().rows[0]->selected == index
            &&& t.update_app(ApplicationActionView::SystemThemeModeChange).1 == seq![
                JobView::Perform(CommandView::SetTheme(AppTheme::at(index))),
            ]
        }),
{
}

/// A slash at the end of the address of the service makes no difference.
pub proof fn law_trailing_slash(base: Seq<char>)
    ensures
        preferences::models_url(base.push('/')) == preferences::models_url(base),
{
    assert(base.push('/').drop_last() =~= base);
}

/// What is left without white space at the ends has none there, and stays as it is when
/// trimmed again.
pub proof fn law_trimmed(s: Seq<char>)
    ensures
        ({
            let t = text::trimmed(s);
            &&& t.len() > 0 ==> !text::white_space(t[0]) && !text::white_space(t.last())
            &&& text::trimmed(t) == t
        }),
{
    lemma_trim_start_ends(s);
    let a = text::trim_start(s);
    lemma_trim_end_ends(a);
}

/// Trimmed at its start, a text does not start with white space.
proof fn lemma_trim_start_ends(s: Seq<char>)
    ensures
        text::trim_start(s).len() > 0 ==> !text::white_space(text::trim_start(s)[0]),
    decreases s.len(),
{
    if s.len() > 0 && text::white_space(s[0]) {
        lemma_trim_start_ends(s.drop_first());
    }
}

/// Trimmed at its end, a text does not end with white space, and starts as it did.
proof fn lemma_trim_end_ends(s: Seq<char>)
    ensures
        ({
            let t = text::trim_end(s);
            t.len() > 0 ==> !text::white_space(t.last()) && t[0] == s[0]
        }),
    decreases s.len(),
{
    if s.len() > 0 && text::white_space(s.last()) {
        lemma_trim_end_ends(s.drop_last());
    }
}

/// A refusal is reported with its status and at most so much of its text as the limit says,
/// from the start of it.
pub proof fn law_refusal_is_short(status: u16, body: Seq<char>)
    requires
        !preferences::success_status(status),
    ensures
        ({
            let shown = text::prefix(body, preferences::SNIPPET_CHARS as int);
            &&& preferences::outcome_text(
                preferences::TestOutcomeView::Response { status, body },
            ) == "Failed: HTTP "@ + text::decimal(status as nat) + ": "@ + shown
            &&& shown.len() <= preferences::SNIPPET_CHARS
            &&& shown == body.take(shown.len() as int)
            &&& body.len() <= preferences::SNIPPET_CHARS ==> shown == body
        }),
{
    let shown = text::prefix(body, preferences::SNIPPET_CHARS as int);
    assert(shown =~= body.take(shown.len() as int));
}

/// A turn that does a command.
proof fn lemma_command_turn(
    r: RuntimeView,
    command: CommandView,
    rest: Seq<JobView>,
    answer: Option<EventView>,
    later: Seq<Turn>,
)
    requires
        r.agenda == seq![JobView::Perform(command)] + rest,
        fits(JobView::Perform(command), answer),
    ensures
        ({
            let turns = seq![Turn::Step(answer)] + later;
            let next = RuntimeView {
                agenda: match answer {
                    Some(event) => seq![JobView::Handle(event)] + rest,
                    None => rest,
                },
                ..r
            };
            &&& r.ran(turns) == next.ran(later)
            &&& r.can_run(turns) == next.can_run(later)
            &&& r.commands(turns) == seq![command] + next.commands(later)
        }),
{
    let turns = seq![Turn::Step(answer)] + later;
    law_command(r, command, rest);
    assert(turns.drop_first() =~= later);
    assert(r.ready());
}

/// A turn that handles an event.
proof fn lemma_handle_turn(
    r: RuntimeView,
    event: EventView,
    rest: Seq<JobView>,
    later: Seq<Turn>,
    t: TasksView,
    jobs: Seq<JobView>,
)
    requires
        r.agenda == seq![JobView::Handle(event)] + rest,
        r.tasks.admits(event),
        r.tasks.handle(event) == (t, jobs),
    ensures
        ({
            let turns = seq![Turn::Step(None)] + later;
            let next = RuntimeView { tasks: t, agenda: jobs + rest };
            &&& r.ran(turns) == next.ran(later)
            &&& r.can_run(turns) == next.can_run(later)
            &&& r.commands(turns) == next.commands(later)
        }),
{
    let turns = seq![Turn::Step(None)] + later;
    assert(r.agenda[0] == JobView::Handle(event));
    assert(r.agenda.drop_first() =~= rest);
    assert(turns.drop_first() =~= later);
}

/// A turn that removes the active item.
proof fn lemma_remove_turn(r: RuntimeView, rest: Seq<JobView>, later: Seq<Turn>)
    requires
        r.agenda == seq![JobView::RemoveActiveItem] + rest,
    ensures
        ({
            let turns = seq![Turn::Step(None)] + later;
            let next = RuntimeView {
                tasks: TasksView { nav_model: r.tasks.nav_model.without_active(), ..r.tasks },
                agenda: rest,
            };
            &&& r.ran(turns) == next.ran(later)
            &&& r.can_run(turns) == next.can_run(later)
            &&& r.commands(turns) == next.commands(later)
        }),
{
    let turns = seq![Turn::Step(None)] + later;
    assert(r.agenda[0] == JobView::RemoveActiveItem);
    assert(r.agenda.drop_first() =~= rest);
    assert(Seq::<JobView>::empty() + rest =~= rest);
    assert(turns.drop_first() =~= later);
}

/// A turn that gives a window its title.
proof fn lemma_title_turn(
    r: RuntimeView,
    window: u64,
    title: Seq<char>,
    rest: Seq<JobView>,
    later: Seq<Turn>,
)
    requires
        r.agenda == seq![JobView::TitleWindow(window, title)] + rest,
    ensures
        ({
            let turns = seq![Turn::Step(None)] + later;
            let next = RuntimeView {
                tasks: TasksView { window_title: Some(title), ..r.tasks },
                agenda: rest,
            };
            &&& r.ran(turns) == next.ran(later)
            &&& r.can_run(turns) == next.can_run(later)
            &&& r.commands(turns) == seq![CommandView::SetWindowTitle(window, title)]
                + next.commands(later)
        }),
{
    let turns = seq![Turn::Step(None)] + later;
    assert(r.agenda[0] == JobView::TitleWindow(window, title));
    assert(r.agenda.drop_first() =~= rest);
    assert(Seq::<JobView>::empty() + rest =~= rest);
    assert(turns.drop_first() =~= later);
}

/// The turns of handing a message to a content page that asks for nothing.
pub open spec fn quiet_turns() -> Seq<Turn> {
    seq![Turn::Step(Some(EventView::ContentUpdated(Seq::empty()))), Turn::Step(None)]
}

/// A content page that asks for nothing leaves the state and the jobs behind as they were.
pub proof fn law_quiet_content(
    r: RuntimeView,
    message: content::MessageView,
    rest: Seq<JobView>,
    later: Seq<Turn>,
)
    requires
        r.agenda == seq![model::to_content(message)] + rest,
    ensures
        ({
            let turns = quiet_turns() + later;
            let next = RuntimeView { agenda: rest, ..r };
            &&& r.ran(turns) == next.ran(later)
            &&& r.can_run(turns) == next.can_run(later)
            &&& r.commands(turns) == seq![CommandView::UpdateContent(message)] + next.commands(
                later,
            )
        }),
{
    let event = EventView::ContentUpdated(Seq::empty());
    let handled = seq![Turn::Step(None)] + later;
    assert(quiet_turns() + later =~= seq![Turn::Step(Some(event))] + handled);
    lemma_command_turn(r, CommandView::UpdateContent(message), rest, Some(event), handled);
    let answered = RuntimeView { agenda: seq![JobView::Handle(event)] + rest, ..r };
    assert(model::content_jobs(Seq::empty()) =~= Seq::<JobView>::empty());
    lemma_handle_turn(answered, event, rest, later, r.tasks, Seq::empty());
    assert(Seq::<JobView>::empty() + rest =~= rest);
}

/// The lists that a fetch brought; none where it failed.
pub open spec fn fetched(lists: Option<Seq<ListView>>) -> Seq<ListView> {
    match lists {
        Some(lists) => lists,
        None => Seq::empty(),
    }
}

/// The turns of the start, where the fetch brings `lists` and the content page asks for nothing.
pub open spec fn startup_turns(flags: FlagsView, lists: Option<Seq<ListView>>) -> Seq<Turn> {
    let show = if fetched(lists).len() > 0 {
        quiet_turns()
    } else {
        Seq::empty()
    };
    let title = if flags.main_window is Some {
        seq![Turn::Step(None)]
    } else {
        Seq::empty()
    };
    seq![Turn::Step(Some(EventView::ListsFetched(lists))), Turn::Step(None)] + show + title + seq![
        Turn::Step(None),
    ]
}

/// The commands of the start: the lists are fetched, the first of them is handed to the content
/// page, the main window gets its title, and the navigation bar is adapted.
pub open spec fn startup_commands(flags: FlagsView, lists: Option<Seq<ListView>>) -> Seq<
    CommandView,
> {
    let show = if fetched(lists).len() > 0 {
        seq![CommandView::UpdateContent(content::MessageView::SetList(Some(fetched(lists)[0])))]
    } else {
        Seq::empty()
    };
    let title = match flags.main_window {
        Some(window) => seq![CommandView::SetWindowTitle(window, flags.tasks_label)],
        None => Seq::empty(),
    };
    seq![CommandView::FetchLists] + show + title + seq![CommandView::ToggleNavBarCondensed]
}

/// The state once the start is over: each list has its item, the first of them is active, and
/// the title of the main window, where there is one, is the name of the application.
pub open spec fn started(flags: FlagsView, lists: Option<Seq<ListView>>) -> TasksView {
    TasksView {
        nav_model: NavView {
            items: Seq::new(
                fetched(lists).len(),
                |i: int| nav::item_for(i, fetched(lists)[i]),
            ),
            active: if fetched(lists).len() > 0 {
                Some(0)
            } else {
                None
            },
            next: fetched(lists).len() as int,
        },
        window_title: if flags.main_window is Some {
            Some(flags.tasks_label)
        } else {
            None
        },
        ..flags.tasks()
    }
}

/// The last turns of the start: the main window gets its title and the navigation bar is
/// adapted.
proof fn lemma_start_ends(flags: FlagsView, s: TasksView)
    ensures
        ({
            let adapt = seq![JobView::Perform(CommandView::ToggleNavBarCondensed)];
            let adapt_turn = seq![Turn::Step(None)];
            match flags.main_window {
                Some(window) => {
                    let title = JobView::TitleWindow(window, flags.tasks_label);
                    let r = RuntimeView { tasks: s, agenda: seq![title] + adapt };
                    let turns = seq![Turn::Step(None)] + adapt_turn;
                    &&& r.can_run(turns)
                    &&& r.ran(turns) == (RuntimeView {
                        tasks: TasksView { window_title: Some(flags.tasks_label), ..s },
                        agenda: Seq::empty(),
                    })
                    &&& r.commands(turns) == seq![
                        CommandView::SetWindowTitle(window, flags.tasks_label),
                        CommandView::ToggleNavBarCondensed,
                    ]
                },
                None => {
                    let r = RuntimeView { tasks: s, agenda: adapt };
                    &&& r.can_run(adapt_turn)
                    &&& r.ran(adapt_turn) == (RuntimeView { tasks: s, agenda: Seq::empty() })
                    &&& r.commands(adapt_turn) == seq![CommandView::ToggleNavBarCondensed]
                },
            }
        }),
{
    let command = CommandView::ToggleNavBarCondensed;
    let adapt = seq![JobView::Perform(command)];
    let turns = seq![Turn::Step(None)];
    assert(turns =~= turns + Seq::<Turn>::empty());
    assert(adapt =~= adapt + Seq::<JobView>::empty());
    match flags.main_window {
        Some(window) => {
            let title = JobView::TitleWindow(window, flags.tasks_label);
            let r = RuntimeView { tasks: s, agenda: seq![title] + adapt };
            lemma_title_turn(r, window, flags.tasks_label, adapt, turns);
            let titled = RuntimeView {
                tasks: TasksView { window_title: Some(flags.tasks_label), ..s },
                agenda: adapt,
            };
            lemma_command_turn(titled, command, Seq::empty(), None, Seq::empty());
        },
        None => {
            let r = RuntimeView { tasks: s, agenda: adapt };
            lemma_command_turn(r, command, Seq::empty(), None, Seq::empty());
        },
    }
}

/// The start runs to its end, whether or not the lists can be fetched, there are any, or there
/// is a main window: the commands come in their order, and nothing is left to do.
#[verifier::spinoff_prover]
#[verifier::rlimit(30)]
pub proof fn law_startup(flags: FlagsView, lists: Option<Seq<ListView>>)
    requires
        fetched(lists).len() <= Entity::MAX,
    ensures
        ({
            let start = RuntimeView { tasks: flags.tasks(), agenda: flags.jobs() };
            let turns = startup_turns(flags, lists);
            &&& start.can_run(turns)
            &&& start.commands(turns) == startup_commands(flags, lists)
            &&& start.ran(turns) == (RuntimeView {
                tasks: started(flags, lists),
                agenda: Seq::empty(),
            })
        }),
{
    let adapt = seq![JobView::Perform(CommandView::ToggleNavBarCondensed)];
    let end = match flags.main_window {
        Some(window) => seq![JobView::TitleWindow(window, flags.tasks_label)] + adapt,
        None => adapt,
    };
    let end_turns = match flags.main_window {
        Some(_) => seq![Turn::Step(None)] + seq![Turn::Step(None)],
        None => seq![Turn::Step(None)],
    };
    let event = EventView::ListsFetched(lists);
    let s = flags.tasks();
    let start = RuntimeView { tasks: s, agenda: flags.jobs() };
    assert(start.agenda =~= seq![JobView::Perform(CommandView::FetchLists)] + end);
    let (t, jobs) = s.handle(event);
    let show = if fetched(lists).len() > 0 {
        quiet_turns() + end_turns
    } else {
        end_turns
    };
    let handled = seq![Turn::Step(None)] + show;
    assert(startup_turns(flags, lists) =~= seq![Turn::Step(Some(event))] + handled);
    lemma_command_turn(start, CommandView::FetchLists, end, Some(event), handled);
    let answered = RuntimeView { tasks: s, agenda: seq![JobView::Handle(event)] + end };
    lemma_handle_turn(answered, event, end, show, t, jobs);
    lemma_start_ends(flags, t);
    if fetched(lists).len() > 0 {
        law_populate(s, fetched(lists));
        let message = content::MessageView::SetList(Some(fetched(lists)[0]));
        let shown = RuntimeView { tasks: t, agenda: jobs + end };
        law_quiet_content(shown, message, end, end_turns);
    } else {
        assert(jobs =~= Seq::<JobView>::empty());
        assert(jobs + end =~= end);
    }
    lemma_started(flags, lists);
    assert(start.commands(startup_turns(flags, lists)) =~= startup_commands(flags, lists));
}

/// What fetching the lists leads to, but for the title of the main window.
proof fn lemma_started(flags: FlagsView, lists: Option<Seq<ListView>>)
    requires
        fetched(lists).len() <= Entity::MAX,
    ensures
        ({
            let t = flags.tasks().handle(EventView::ListsFetched(lists)).0;
            &&& flags.main_window is Some ==> started(flags, lists) == (TasksView {
                window_title: Some(flags.tasks_label),
                ..t
            })
            &&& flags.main_window is None ==> started(flags, lists) == t
        }),
{
    let s = flags.tasks();
    let t = s.handle(EventView::ListsFetched(lists)).0;
    let all = fetched(lists);
    assert(s.with_lists(all).nav_model.items =~= started(flags, lists).nav_model.items);
    if all.len() > 0 {
        law_populate(s, all);
        assert(t.nav_model.items[0].id == 0);
    }
    assert(t.nav_model =~= started(flags, lists).nav_model);
}

/// A command that is performed leaves the state and the jobs behind as they were.
pub proof fn law_command(r: RuntimeView, command: CommandView, rest: Seq<JobView>)
    requires
        r.agenda == seq![JobView::Perform(command)] + rest,
    ensures
        runtime::job_command(r.agenda[0]) == Some(command),
        r.stepped() == (RuntimeView { agenda: rest, ..r }),
{
    assert(r.agenda[0] == JobView::Perform(command));
    assert(r.agenda.drop_first() =~= rest);
    assert(Seq::<JobView>::empty() + rest =~= rest);
}

/// A delete dialog about a list, once carried out, has the storage delete that list, shows no
/// list on the content page, and then, in whatever state `t` the page's outputs left the
/// application, removes the active item.
pub proof fn law_delete(
    s: TasksView,
    entity: Option<Entity>,
    list: ListView,
    t: TasksView,
    rest: Seq<JobView>,
)
    requires
        s.nav_model.resolve(entity) == Some(list),
        s.dialog_pages.len() > 0,
        s.dialog_pages[0] == DialogPageView::Delete(entity),
    ensures
        s.update_dialog(DialogActionView::Complete) == (
            TasksView { dialog_pages: s.dialog_pages.drop_first(), ..s },
            seq![
                JobView::Perform(CommandView::DeleteList(list)),
                model::to_content(content::MessageView::SetList(None)),
                JobView::RemoveActiveItem,
            ],
        ),
        (RuntimeView { tasks: t, agenda: seq![JobView::RemoveActiveItem] + rest }).stepped() == (
        RuntimeView {
            tasks: TasksView { nav_model: t.nav_model.without_active(), ..t },
            agenda: rest,
        }),
{
    let r = RuntimeView { tasks: t, agenda: seq![JobView::RemoveActiveItem] + rest };
    assert(r.agenda[0] == JobView::RemoveActiveItem);
    assert(r.agenda.drop_first() =~= rest);
    assert(Seq::<JobView>::empty() + rest =~= rest);
}

/// The event of adding a list.
pub open spec fn adding(list: ListView) -> EventView {
    EventView::Message(MessageView::Tasks(TasksActionView::AddList(list)))
}

/// The event of deleting the active list.
pub open spec fn deleting_active() -> EventView {
    EventView::Message(MessageView::Tasks(TasksActionView::DeleteList(None)))
}

/// The navigation bar after a list was added and the active item removed.
proof fn lemma_add_then_remove(s: TasksView, list: ListView)
    requires
        s.wf(),
        s.has_room(1),
    ensures
        ({
            let nav = s.add_list(list).0.nav_model.without_active();
            &&& nav.items == s.nav_model.items
            &&& nav.active is None
        }),
{
    law_add_list(s, list);
    lemma_add_list_wf(s, list);
    let t = s.add_list(list).0;
    let n = t.nav_model.items.len() - 1;
    t.nav_model.lemma_found(n);
    law_remove_active_item(t.nav_model);
    assert(t.nav_model.items.take(n) =~= t.nav_model.items.drop_last());
    assert(t.nav_model.without_active().items =~= s.nav_model.items);
}

/// A list that is added and then, as the active one, deleted leaves the navigation items as they
/// were, none of them active. If the content page asks for nothing, it is shown the list and then
/// none, and the storage is told once to delete: that list.
pub proof fn law_add_then_delete(s: TasksView, list: ListView)
    requires
        s.wf(),
        s.has_room(1),
    ensures
        ({
            let start = RuntimeView {
                tasks: s,
                agenda: seq![JobView::Handle(adding(list)), JobView::Handle(deleting_active())],
            };
            let turns = seq![Turn::Step(None)] + quiet_turns() + seq![
                Turn::Step(None),
                Turn::Step(None),
            ] + quiet_turns() + seq![Turn::Step(None)];
            let end = start.ran(turns);
            &&& start.can_run(turns)
            &&& end.agenda.len() == 0
            &&& end.tasks.nav_model.items == s.nav_model.items
            &&& end.tasks.nav_model.active is None
            &&& end.tasks.nav_model.resolve(None) is None
            &&& start.commands(turns) == seq![
                CommandView::UpdateContent(content::MessageView::SetList(Some(list))),
                CommandView::DeleteList(list),
                CommandView::UpdateContent(content::MessageView::SetList(None)),
            ]
        }),
{
    let step = seq![Turn::Step(None)];
    let none = Seq::<Turn>::empty();
    let add = adding(list);
    let delete = deleting_active();
    let later = seq![JobView::Handle(delete)];
    let start = RuntimeView {
        tasks: s,
        agenda: seq![JobView::Handle(add), JobView::Handle(delete)],
    };
    let turns = seq![Turn::Step(None)] + quiet_turns() + seq![Turn::Step(None), Turn::Step(None)]
        + quiet_turns() + seq![Turn::Step(None)];
    let told_turns = quiet_turns() + step;
    let deleted_turns = step + told_turns;
    let added_turns = step + deleted_turns;
    assert(turns =~= step + (quiet_turns() + added_turns));
    assert(start.agenda =~= seq![JobView::Handle(add)] + later);
    let (t, shown) = s.add_list(list);
    law_add_list(s, list);
    lemma_handle_turn(start, add, later, quiet_turns() + added_turns, t, shown);
    let added = RuntimeView { tasks: t, agenda: shown + later };
    law_quiet_content(added, content::MessageView::SetList(Some(list)), later, added_turns);
    let tell = model::to_content(content::MessageView::SetList(None));
    let remove = seq![JobView::RemoveActiveItem];
    let jobs = seq![JobView::Perform(CommandView::DeleteList(list)), tell] + remove;
    assert(t.delete_list(None).1 =~= jobs);
    let waiting = RuntimeView { tasks: t, agenda: later };
    assert(later =~= later + Seq::<JobView>::empty());
    lemma_handle_turn(waiting, delete, Seq::empty(), deleted_turns, t, jobs);
    let deleting = RuntimeView { tasks: t, agenda: jobs + Seq::empty() };
    assert(deleting.agenda =~= seq![JobView::Perform(CommandView::DeleteList(list))] + (seq![tell]
        + remove));
    lemma_command_turn(
        deleting,
        CommandView::DeleteList(list),
        seq![tell] + remove,
        None,
        told_turns,
    );
    let telling = RuntimeView { tasks: t, agenda: seq![tell] + remove };
    law_quiet_content(telling, content::MessageView::SetList(None), remove, step);
    let removing = RuntimeView { tasks: t, agenda: remove };
    assert(remove =~= remove + Seq::<JobView>::empty());
    assert(step =~= step + none);
    lemma_remove_turn(removing, Seq::empty(), none);
    lemma_add_then_remove(s, list);
}

/// Whether a job leads to the end of a connection test.
pub open spec fn ends_test(job: JobView) -> bool {
    tests(job) || job matches JobView::Handle(EventView::ConnectionTested(_))
}

/// While a connection is being tested, a job is due that leads to the end of the test.
pub open spec fn test_is_awaited(r: RuntimeView) -> bool {
    r.tasks.preferences.testing ==> exists|i: int|
        0 <= i < r.agenda.len() && ends_test(#[trigger] r.agenda[i])
}

/// What handling an event means for a connection test: if one is under way afterwards, it has
/// just been begun, or it was under way before and has not ended.
proof fn lemma_handle_testing(s: TasksView, event: EventView)
    requires
        s.admits(event),
        s.handle(event).0.preferences.testing,
    ensures
        ({
            let jobs = s.handle(event).1;
            ||| s.preferences.testing && !(event is ConnectionTested)
            ||| jobs.len() > 0 && tests(jobs[0])
        }),
{
    match event {
        EventView::Message(MessageView::Preferences(_)) => {},
        EventView::ConnectionTested(_) => {},
        _ => {
            law_preferences_stay(s, event);
        },
    }
}

/// A turn keeps it so that a connection test is awaited.
proof fn lemma_turn_awaits_test(r: RuntimeView, turn: Turn)
    requires
        test_is_awaited(r),
        r.allows(turn),
    ensures
        test_is_awaited(r.turned(turn)),
{
    let next = r.turned(turn);
    if next.tasks.preferences.testing {
        match turn {
            Turn::Submit(event) => {
                let i = choose|i: int|
                    0 <= i < r.agenda.len() && ends_test(#[trigger] r.agenda[i]);
                assert(next.agenda[i] == r.agenda[i]);
            },
            Turn::Step(answer) => {
                lemma_step_awaits_test(r, answer);
            },
        }
    }
}

/// A step keeps it so that a connection test is awaited.
proof fn lemma_step_awaits_test(r: RuntimeView, answer: Option<EventView>)
    requires
        test_is_awaited(r),
        r.allows(Turn::Step(answer)),
        r.turned(Turn::Step(answer)).tasks.preferences.testing,
    ensures
        test_is_awaited(r.turned(Turn::Step(answer))),
{
    let next = r.turned(Turn::Step(answer));
    let job = r.agenda[0];
    let (t, jobs) = r.tasks.after_job(job);
    let front: int = if answer is Some {
        1
    } else {
        0
    };
    let before = match answer {
        Some(event) => seq![JobView::Handle(event)],
        None => Seq::<JobView>::empty(),
    };
    assert(next.agenda =~= before + jobs + r.agenda.drop_first());
    assert(next.tasks == t);
    if tests(job) {
        assert(ends_test(next.agenda[0]));
    } else {
        if let JobView::Handle(event) = job {
            lemma_handle_testing(r.tasks, event);
            if jobs.len() > 0 && tests(jobs[0]) {
                assert(next.agenda[front] == jobs[0]);
                assert(ends_test(next.agenda[front]));
            }
        }
        if !(jobs.len() > 0 && tests(jobs[0])) {
            assert(r.tasks.preferences.testing);
            let i = choose|i: int| 0 <= i < r.agenda.len() && ends_test(#[trigger] r.agenda[i]);
            assert(i > 0);
            assert(next.agenda[front + jobs.len() + (i - 1)] == r.agenda[i]);
        }
    }
}

/// Turns keep it so that a connection test is awaited.
proof fn lemma_run_awaits_test(r: RuntimeView, turns: Seq<Turn>)
    requires
        test_is_awaited(r),
        r.can_run(turns),
    ensures
        test_is_awaited(r.ran(turns)),
    decreases turns.len(),
{
    if turns.len() > 0 {
        lemma_turn_awaits_test(r, turns[0]);
        lemma_run_awaits_test(r.turned(turns[0]), turns.drop_first());
    }
}

/// No connection test is left behind: whatever happens after the start, and whatever the
/// answers are, once nothing is left to do no test is under way.
pub proof fn law_no_test_left_behind(flags: FlagsView, turns: Seq<Turn>)
    requires
        (RuntimeView { tasks: flags.tasks(), agenda: flags.jobs() }).can_run(turns),
    ensures
        ({
            let end = (RuntimeView { tasks: flags.tasks(), agenda: flags.jobs() }).ran(turns);
            end.agenda.len() == 0 ==> !end.tasks.preferences.testing
        }),
{
    lemma_run_awaits_test(RuntimeView { tasks: flags.tasks(), agenda: flags.jobs() }, turns);
}

} // verus!
