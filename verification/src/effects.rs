//! What each operation is for: which jobs it leaves, what it changes, and what it leaves alone,
//! in terms of the items, dialogs and texts that are there.

use vstd::prelude::*;

use crate::actions::{
    ApplicationActionView, ContextPage, Modifiers, NavMenuAction, TasksActionView,
};
use crate::config::{AppTheme, ConfigEntryView, ConfigView};
use crate::content;
use crate::content::SortType;
use crate::details;
use crate::details::{Calendar, DetailsView};
use crate::dialog::{DialogActionView, DialogPageView};
use crate::message::{CommandView, EventView, JobView, MessageView, PreferencesMessageView};
use crate::model;
use crate::model::TasksView;
use crate::nav::{Entity, NavItemView, NavView};
use crate::preferences;
use crate::preferences::{PreferencesView, TestOutcomeView};
use crate::storage::{ListView, TaskView};
use crate::text;

verus! {

/// A state and the jobs that are left.
pub type Outcome = (TasksView, Seq<JobView>);

/// What comes of a message.
pub open spec fn sent(s: TasksView, message: MessageView) -> Outcome {
    s.handle(EventView::Message(message))
}

/// What comes of an action on the application as a whole.
pub open spec fn acted(s: TasksView, action: ApplicationActionView) -> Outcome {
    sent(s, MessageView::Application(action))
}

/// What comes of an action on the dialogs.
pub open spec fn dialog(s: TasksView, action: DialogActionView) -> Outcome {
    acted(s, ApplicationActionView::Dialog(action))
}

/// Whether the item at `p` is the one that a dialog is about: the named one, or the active one
/// where none is named.
pub open spec fn about_item(nav: NavView, entity: Option<Entity>, p: int) -> bool {
    &&& 0 <= p < nav.items.len()
    &&& match entity {
        Some(id) => nav.items[p].id == id,
        None => nav.active == Some(nav.items[p].id),
    }
}

/// Whether there is no item that a dialog is about.
pub open spec fn about_none(nav: NavView, entity: Option<Entity>) -> bool {
    match entity {
        Some(id) => forall|k: int| 0 <= k < nav.items.len() ==> (#[trigger] nav.items[k]).id != id,
        None => nav.active is None,
    }
}

/// Whether two navigation bars have the same items in the same places, under the same names,
/// with the same one active, but for what the items at `p` and `q` show.
pub open spec fn same_but_at(a: NavView, b: NavView, p: int, q: int) -> bool {
    &&& a.active == b.active
    &&& a.next == b.next
    &&& a.items.len() == b.items.len()
    &&& forall|k: int| 0 <= k < a.items.len() ==> (#[trigger] a.items[k]).id == b.items[k].id
    &&& forall|k: int|
        0 <= k < a.items.len() && k != p && k != q ==> #[trigger] a.items[k] == b.items[k]
}

/// The jobs after a list changed: the storage gets it, and the content page shows it.
pub open spec fn stored_and_shown(jobs: Seq<JobView>, list: ListView) -> bool {
    &&& jobs.len() == 2
    &&& jobs[0] == JobView::Perform(CommandView::UpdateList(list))
    &&& jobs[1] == JobView::Perform(
        CommandView::UpdateContent(content::MessageView::SetList(Some(list))),
    )
}

/// The only job is a command.
pub open spec fn only(jobs: Seq<JobView>, command: CommandView) -> bool {
    jobs.len() == 1 && jobs[0] == JobView::Perform(command)
}

/// An item is found where it stands.
proof fn lemma_about_item(nav: NavView, entity: Option<Entity>, p: int)
    requires
        nav.wf(),
        about_item(nav, entity, p),
    ensures
        nav.target(entity) == Some(nav.items[p].id),
        nav.has(nav.items[p].id),
        nav.position(nav.items[p].id) == p,
        nav.resolve(entity) == Some(nav.items[p].list),
{
    nav.lemma_found(p);
}

/// An item that is not there is not found.
proof fn lemma_about_none(nav: NavView, entity: Option<Entity>)
    requires
        about_none(nav, entity),
    ensures
        nav.resolve(entity) is None,
        entity matches Some(id) ==> !nav.has(id),
{
    if let Some(id) = entity {
        if nav.has(id) {
            assert(nav.found_at(nav.position(id), id));
        }
    }
}

/// There is always either an item that a dialog is about, or none.
pub proof fn law_about(nav: NavView, entity: Option<Entity>)
    requires
        nav.wf(),
    ensures
        about_none(nav, entity) <==> !exists|p: int| about_item(nav, entity, p),
        forall|p: int, q: int|
            about_item(nav, entity, p) && about_item(nav, entity, q) ==> p == q,
{
    match entity {
        Some(id) => {
            if !about_none(nav, entity) {
                let k = choose|k: int|
                    0 <= k < nav.items.len() && (#[trigger] nav.items[k]).id == id;
                assert(about_item(nav, entity, k));
            }
        },
        None => {
            if let Some(id) = nav.active {
                assert(nav.found_at(nav.position(id), id));
                assert(about_item(nav, entity, nav.position(id)));
            }
        },
    }
}

// The lists in the navigation bar.

/// The item for a new list shows the name of the list and its icon, or a default one.
pub open spec fn stands_for(item: NavItemView, list: ListView) -> bool {
    &&& item.list == list
    &&& item.text == list.name
    &&& item.icon == (match list.icon {
        Some(icon) => icon,
        None => "view-list-symbolic"@,
    })
}

/// Whether the title that the main window was last given is that of a list.
pub open spec fn titled_after(t: TasksView, s: TasksView, list: ListView) -> bool {
    t.window_title == (if s.main_window is Some {
        Some(list.name + " - "@ + s.tasks_label)
    } else {
        s.window_title
    })
}

/// Whether items for `lists` were appended.
pub open spec fn appended(a: NavView, b: NavView, lists: Seq<ListView>) -> bool {
    &&& a.items.len() == b.items.len() + lists.len()
    &&& a.next == b.next + lists.len()
    &&& forall|k: int| 0 <= k < b.items.len() ==> #[trigger] a.items[k] == b.items[k]
    &&& forall|k: int|
        b.items.len() <= k < a.items.len() ==> {
            &&& stands_for(#[trigger] a.items[k], lists[k - b.items.len()])
            &&& a.items[k].id == b.next + (k - b.items.len())
        }
}

/// Choosing an item makes it the active one, shows its list, whichever it is and whichever was
/// active before, and changes the title of the main window, and nothing else.
pub proof fn law_select(s: TasksView, p: int)
    requires
        s.wf(),
        0 <= p < s.nav_model.items.len(),
    ensures
        ({
            let item = s.nav_model.items[p];
            let (t, jobs) = s.handle(EventView::NavSelected(item.id));
            &&& t == (TasksView {
                nav_model: NavView { active: Some(item.id), ..s.nav_model },
                window_title: t.window_title,
                ..s
            })
            &&& titled_after(t, s, item.list)
            &&& only(
                jobs,
                CommandView::UpdateContent(content::MessageView::SetList(Some(item.list))),
            )
        }),
{
    s.nav_model.lemma_found(p);
}

/// Choosing an item that is not there does nothing.
pub proof fn law_select_missing(s: TasksView, id: Entity)
    requires
        about_none(s.nav_model, Some(id)),
    ensures
        s.handle(EventView::NavSelected(id)) == (s, Seq::<JobView>::empty()),
{
    lemma_about_none(s.nav_model, Some(id));
}

/// Appending items by themselves changes nothing but that there are more items.
pub proof fn law_append(s: TasksView, lists: Seq<ListView>)
    requires
        s.wf(),
        s.nav_model.next + lists.len() <= Entity::MAX,
    ensures
        ({
            let t = s.with_lists(lists);
            &&& t == (TasksView { nav_model: t.nav_model, ..s })
            &&& t.nav_model.active == s.nav_model.active
            &&& appended(t.nav_model, s.nav_model, lists)
        }),
{
}

/// Lists that were fetched, or are to be shown, each get an item, and the first item of all is
/// chosen, whichever was active before.
pub proof fn law_show_lists(s: TasksView, lists: Seq<ListView>)
    requires
        s.wf(),
        s.nav_model.next + lists.len() <= Entity::MAX,
    ensures
        ({
            let (t, jobs) = s.handle(EventView::ListsFetched(Some(lists)));
            &&& sent(s, MessageView::Tasks(TasksActionView::PopulateLists(lists))) == (t, jobs)
            &&& t == (TasksView { nav_model: t.nav_model, window_title: t.window_title, ..s })
            &&& appended(t.nav_model, s.nav_model, lists)
            &&& t.nav_model.items.len() > 0 ==> {
                let first = t.nav_model.items[0];
                &&& t.nav_model.active == Some(first.id)
                &&& titled_after(t, s, first.list)
                &&& only(
                    jobs,
                    CommandView::UpdateContent(content::MessageView::SetList(Some(first.list))),
                )
            }
            &&& t.nav_model.items.len() == 0 ==> t == s && jobs.len() == 0
        }),
{
    let after = s.with_lists(lists);
    s.nav_model.lemma_with_new_items_wf(lists);
    if after.nav_model.items.len() > 0 {
        after.nav_model.lemma_found(0);
    } else {
        assert(after.nav_model.items =~= s.nav_model.items);
    }
}

/// A list that was created, or is to be added, gets the last item, and that item is chosen.
pub proof fn law_show_new_list(s: TasksView, list: ListView)
    requires
        s.wf(),
        s.nav_model.next + 1 <= Entity::MAX,
    ensures
        ({
            let (t, jobs) = s.handle(EventView::ListCreated(Some(list)));
            &&& sent(s, MessageView::Tasks(TasksActionView::AddList(list))) == (t, jobs)
            &&& t == (TasksView { nav_model: t.nav_model, window_title: t.window_title, ..s })
            &&& appended(t.nav_model, s.nav_model, seq![list])
            &&& t.nav_model.active == Some(s.nav_model.next as Entity)
            &&& titled_after(t, s, list)
            &&& only(
                jobs,
                CommandView::UpdateContent(content::MessageView::SetList(Some(list))),
            )
        }),
{
    let after = s.with_lists(seq![list]);
    s.nav_model.lemma_with_new_items_wf(seq![list]);
    after.nav_model.lemma_found(after.nav_model.items.len() - 1);
}

/// A command of the storage that failed changes nothing and leads to nothing.
pub proof fn law_failures(s: TasksView)
    ensures
        s.handle(EventView::ListsFetched(None)) == (s, Seq::<JobView>::empty()),
        s.handle(EventView::ListCreated(None)) == (s, Seq::<JobView>::empty()),
        s.handle(EventView::TasksExported(None)) == (s, Seq::<JobView>::empty()),
{
}

/// Fetching the lists changes nothing yet.
pub proof fn law_fetch(s: TasksView)
    ensures
        ({
            let (t, jobs) = sent(s, MessageView::Tasks(TasksActionView::FetchLists));
            t == s && only(jobs, CommandView::FetchLists)
        }),
{
}

/// Whether the jobs are those of deleting a list.
pub open spec fn deletes(jobs: Seq<JobView>, list: ListView) -> bool {
    &&& jobs.len() == 3
    &&& jobs[0] == JobView::Perform(CommandView::DeleteList(list))
    &&& jobs[1] == JobView::Perform(CommandView::UpdateContent(content::MessageView::SetList(None)))
    &&& jobs[2] == JobView::RemoveActiveItem
}

/// Deleting a list, named or active, has the storage delete the list behind that very item and
/// the content page show none; the active item goes last. Where there is no such item, only the
/// active one goes.
pub proof fn law_delete_list(s: TasksView, entity: Option<Entity>)
    requires
        s.wf(),
    ensures
        ({
            let (t, jobs) = sent(s, MessageView::Tasks(TasksActionView::DeleteList(entity)));
            &&& t == s
            &&& forall|p: int| #[trigger]
                about_item(s.nav_model, entity, p) ==> deletes(jobs, s.nav_model.items[p].list)
            &&& about_none(s.nav_model, entity) ==> jobs.len() == 1 && jobs[0]
                == JobView::RemoveActiveItem
        }),
{
    lemma_delete(s, entity);
}

/// What deleting a list leaves.
proof fn lemma_delete(s: TasksView, entity: Option<Entity>)
    requires
        s.wf(),
    ensures
        ({
            let (t, jobs) = s.delete_list(entity);
            &&& t == s
            &&& forall|p: int| #[trigger]
                about_item(s.nav_model, entity, p) ==> deletes(jobs, s.nav_model.items[p].list)
            &&& about_none(s.nav_model, entity) ==> jobs.len() == 1 && jobs[0]
                == JobView::RemoveActiveItem
        }),
{
    assert forall|p: int| #[trigger] about_item(s.nav_model, entity, p) implies deletes(
        s.delete_list(entity).1,
        s.nav_model.items[p].list,
    ) by {
        lemma_about_item(s.nav_model, entity, p);
    }
    if about_none(s.nav_model, entity) {
        lemma_about_none(s.nav_model, entity);
    }
}

/// Removing the active item, at `p`, leaves the others in order and none active, and removing
/// where none is active changes nothing.
pub proof fn law_remove_job(s: TasksView)
    requires
        s.wf(),
    ensures
        ({
            let (t, jobs) = s.after_job(JobView::RemoveActiveItem);
            &&& jobs.len() == 0
            &&& t == (TasksView { nav_model: t.nav_model, ..s })
            &&& s.nav_model.active is None ==> t == s
            &&& forall|p: int| #[trigger]
                about_item(s.nav_model, None, p) ==> {
                    &&& t.nav_model.active is None
                    &&& t.nav_model.next == s.nav_model.next
                    &&& t.nav_model.items == s.nav_model.items.take(p) + s.nav_model.items.skip(
                        p + 1,
                    )
                }
        }),
{
    let t = s.after_job(JobView::RemoveActiveItem).0;
    assert forall|p: int| #[trigger] about_item(s.nav_model, None, p) implies t.nav_model.items
        == s.nav_model.items.take(p) + s.nav_model.items.skip(p + 1) by {
        lemma_about_item(s.nav_model, None, p);
        assert(t.nav_model.items =~= s.nav_model.items.take(p) + s.nav_model.items.skip(p + 1));
    }
    if let Some(id) = s.nav_model.active {
        law_about(s.nav_model, None);
    }
}

// The dialogs.

/// Opening a dialog puts it last, as it is, and focuses its input. What is in the other dialogs,
/// and all else, stays.
pub proof fn law_open_dialog(s: TasksView, page: DialogPageView)
    requires
        !(page is Rename),
    ensures
        ({
            let (t, jobs) = dialog(s, DialogActionView::Open(page));
            &&& t == (TasksView { dialog_pages: s.dialog_pages + seq![page], ..s })
            &&& only(jobs, CommandView::Focus(s.dialog_text_input))
        }),
{
    assert(s.dialog_pages.push(page) =~= s.dialog_pages + seq![page]);
}

/// Opening a rename dialog puts one last that holds the present name of the list that it is
/// about, whatever it was opened with. It stays closed where there is no such list; the input is
/// focused all the same.
pub proof fn law_open_rename(s: TasksView, entity: Option<Entity>, typed: Seq<char>)
    requires
        s.wf(),
    ensures
        ({
            let (t, jobs) = dialog(
                s,
                DialogActionView::Open(DialogPageView::Rename(entity, typed)),
            );
            &&& t == (TasksView { dialog_pages: t.dialog_pages, ..s })
            &&& forall|p: int| #[trigger]
                about_item(s.nav_model, entity, p) ==> t.dialog_pages == s.dialog_pages + seq![
                    DialogPageView::Rename(entity, s.nav_model.items[p].list.name),
                ]
            &&& about_none(s.nav_model, entity) ==> t.dialog_pages == s.dialog_pages
            &&& only(jobs, CommandView::Focus(s.dialog_text_input))
        }),
{
    let t = dialog(s, DialogActionView::Open(DialogPageView::Rename(entity, typed))).0;
    assert forall|p: int| #[trigger] about_item(s.nav_model, entity, p) implies t.dialog_pages
        == s.dialog_pages + seq![
        DialogPageView::Rename(entity, s.nav_model.items[p].list.name),
    ] by {
        lemma_about_item(s.nav_model, entity, p);
        assert(t.dialog_pages =~= s.dialog_pages + seq![
            DialogPageView::Rename(entity, s.nav_model.items[p].list.name),
        ]);
    }
    if about_none(s.nav_model, entity) {
        lemma_about_none(s.nav_model, entity);
    }
}

/// Replacing the foremost dialog replaces that one alone, with what is given; closing removes it
/// alone; and doing nothing does nothing. None of these leaves a job.
pub proof fn law_change_dialogs(s: TasksView, page: DialogPageView)
    ensures
        ({
            let (t, jobs) = dialog(s, DialogActionView::Update(page));
            s.dialog_pages.len() > 0 ==> {
                &&& t == (TasksView {
                    dialog_pages: seq![page] + s.dialog_pages.drop_first(),
                    ..s
                })
                &&& jobs.len() == 0
            }
        }),
        ({
            let (t, jobs) = dialog(s, DialogActionView::Close);
            &&& jobs.len() == 0
            &&& s.dialog_pages.len() > 0 ==> t == (TasksView {
                dialog_pages: s.dialog_pages.drop_first(),
                ..s
            })
            &&& s.dialog_pages.len() == 0 ==> t == s
        }),
        dialog(s, DialogActionView::Nothing) == (s, Seq::<JobView>::empty()),
        s.dialog_pages.len() == 0 ==> dialog(s, DialogActionView::Complete) == (
            s,
            Seq::<JobView>::empty(),
        ),
{
    let t = dialog(s, DialogActionView::Update(page)).0;
    if s.dialog_pages.len() > 0 {
        assert(t.dialog_pages =~= seq![page] + s.dialog_pages.drop_first());
    }
}

/// Whether the foremost dialog is `page`, and carrying it out gives `t` and `jobs`.
pub open spec fn completes(s: TasksView, page: DialogPageView, t: TasksView, jobs: Seq<JobView>)
    -> bool {
    &&& s.dialog_pages.len() > 0
    &&& s.dialog_pages[0] == page
    &&& dialog(s, DialogActionView::Complete) == (t, jobs)
}

/// Carrying out a dialog closes it alone, and leaves all but the navigation bar as it was.
pub proof fn law_complete_closes(
    s: TasksView,
    page: DialogPageView,
    t: TasksView,
    jobs: Seq<JobView>,
)
    requires
        completes(s, page, t, jobs),
    ensures
        t == (TasksView {
            nav_model: t.nav_model,
            dialog_pages: s.dialog_pages.drop_first(),
            ..s
        }),
        !(page is Rename || page is Icon) ==> t.nav_model == s.nav_model,
{
}

/// The dialog for a new list has the storage create one under the name in the dialog.
pub proof fn law_complete_new(s: TasksView, name: Seq<char>, t: TasksView, jobs: Seq<JobView>)
    requires
        completes(s, DialogPageView::New(name), t, jobs),
    ensures
        only(jobs, CommandView::CreateList(name)),
{
}

/// The calendar dialog sets the due date to the day that is selected. Which month is on show
/// makes no difference.
pub proof fn law_complete_calendar(
    s: TasksView,
    calendar: Calendar,
    t: TasksView,
    jobs: Seq<JobView>,
)
    requires
        completes(s, DialogPageView::Calendar(calendar), t, jobs),
    ensures
        only(jobs, CommandView::SetDueDate(calendar.selected)),
{
}

/// Two calendars with the same day selected set the same due date, whatever they show.
pub proof fn law_due_date_is_selected(s: TasksView, r: TasksView, a: Calendar, b: Calendar)
    requires
        s.dialog_pages.len() > 0,
        s.dialog_pages[0] == DialogPageView::Calendar(a),
        r.dialog_pages.len() > 0,
        r.dialog_pages[0] == DialogPageView::Calendar(b),
    ensures
        a.selected == b.selected <==> dialog(s, DialogActionView::Complete).1 == dialog(
            r,
            DialogActionView::Complete,
        ).1,
{
    let x = dialog(s, DialogActionView::Complete).1;
    let y = dialog(r, DialogActionView::Complete).1;
    assert(x[0] == JobView::Perform(CommandView::SetDueDate(a.selected)));
    assert(y[0] == JobView::Perform(CommandView::SetDueDate(b.selected)));
    if a.selected == b.selected {
        assert(x =~= y);
    }
}

/// The export dialog puts the text that it shows on the clipboard.
pub proof fn law_complete_export(
    s: TasksView,
    exported: Seq<char>,
    t: TasksView,
    jobs: Seq<JobView>,
)
    requires
        completes(s, DialogPageView::Export(exported), t, jobs),
    ensures
        only(jobs, CommandView::SetClipboard(exported)),
{
}

/// The delete dialog deletes the list that it is about.
pub proof fn law_complete_delete(
    s: TasksView,
    entity: Option<Entity>,
    t: TasksView,
    jobs: Seq<JobView>,
)
    requires
        s.wf(),
        completes(s, DialogPageView::Delete(entity), t, jobs),
    ensures
        forall|p: int| #[trigger]
            about_item(s.nav_model, entity, p) ==> deletes(jobs, s.nav_model.items[p].list),
        about_none(s.nav_model, entity) ==> jobs.len() == 1 && jobs[0] == JobView::RemoveActiveItem,
{
    lemma_delete(s.closed(), entity);
}

/// The rename dialog gives its name to the list that it is about, and to no other: the storage
/// and the content page get that list with the new name and nothing else of it changed. The text
/// of the active item becomes the name; no other text and no icon changes.
pub proof fn law_complete_rename(
    s: TasksView,
    entity: Option<Entity>,
    name: Seq<char>,
    p: int,
    t: TasksView,
    jobs: Seq<JobView>,
)
    requires
        s.wf(),
        completes(s, DialogPageView::Rename(entity, name), t, jobs),
        about_item(s.nav_model, entity, p),
    ensures
        ({
            let list = ListView { name, ..s.nav_model.items[p].list };
            &&& stored_and_shown(jobs, list)
            &&& t.nav_model.items[p].list == list
            &&& t.nav_model.active == s.nav_model.active
            &&& t.nav_model.next == s.nav_model.next
            &&& t.nav_model.items.len() == s.nav_model.items.len()
            &&& forall|k: int|
                0 <= k < s.nav_model.items.len() ==> {
                    &&& (#[trigger] t.nav_model.items[k]).id == s.nav_model.items[k].id
                    &&& t.nav_model.items[k].icon == s.nav_model.items[k].icon
                    &&& k != p ==> t.nav_model.items[k].list == s.nav_model.items[k].list
                    &&& t.nav_model.items[k].text == (if s.nav_model.active == Some(
                        s.nav_model.items[k].id,
                    ) {
                        name
                    } else {
                        s.nav_model.items[k].text
                    })
                }
        }),
{
    let nav = s.nav_model;
    lemma_about_item(nav, entity, p);
    let list = ListView { name, ..nav.items[p].list };
    nav.lemma_with_list(nav.items[p].id, list);
    let with_list = nav.with_list(nav.items[p].id, list);
    assert(t.nav_model == with_list.with_active_text(name));
    if let Some(id) = nav.active {
        law_about(nav, None);
        let q = choose|q: int| about_item(nav, None, q);
        lemma_about_item(nav, None, q);
        assert(with_list.has(id));
        assert(with_list.position(id) == q);
    }
}

/// A rename dialog about no list changes nothing but that it is closed.
pub proof fn law_complete_rename_missing(
    s: TasksView,
    entity: Option<Entity>,
    name: Seq<char>,
    t: TasksView,
    jobs: Seq<JobView>,
)
    requires
        completes(s, DialogPageView::Rename(entity, name), t, jobs),
        about_none(s.nav_model, entity),
    ensures
        t.nav_model == s.nav_model,
        jobs.len() == 0,
{
    lemma_about_none(s.nav_model, entity);
}

/// The icon dialog, while the item at `q` is active, gives the icon to the list behind that
/// item: the storage and the content page get that list with the new icon and nothing else of it
/// changed, and it is the list behind the item afterwards. The other items stay as they were. If
/// the dialog is about a list, the active item shows the icon and the name of that list.
pub proof fn law_complete_icon(
    s: TasksView,
    entity: Option<Entity>,
    icon: Seq<char>,
    search: Seq<char>,
    q: int,
    t: TasksView,
    jobs: Seq<JobView>,
)
    requires
        s.wf(),
        completes(s, DialogPageView::Icon(entity, icon, search), t, jobs),
        about_item(s.nav_model, None, q),
    ensures
        ({
            let list = ListView { icon: Some(icon), ..s.nav_model.items[q].list };
            &&& stored_and_shown(jobs, list)
            &&& t.nav_model.items[q].list == list
            &&& same_but_at(t.nav_model, s.nav_model, q, q)
            &&& forall|p: int| #[trigger]
                about_item(s.nav_model, entity, p) ==> {
                    &&& t.nav_model.items[q].icon == icon
                    &&& t.nav_model.items[q].text == s.nav_model.items[p].list.name
                }
            &&& about_none(s.nav_model, entity) ==> {
                &&& t.nav_model.items[q].icon == s.nav_model.items[q].icon
                &&& t.nav_model.items[q].text == s.nav_model.items[q].text
            }
        }),
{
    let nav = s.nav_model;
    let id = nav.items[q].id;
    lemma_about_item(nav, None, q);
    let changed = ListView { icon: Some(icon), ..nav.items[q].list };
    law_about(nav, entity);
    if about_none(nav, entity) {
        lemma_about_none(nav, entity);
        assert(t.nav_model == nav.with_list(id, changed));
    } else {
        let p = choose|p: int| about_item(nav, entity, p);
        lemma_about_item(nav, entity, p);
        let name = nav.items[p].list.name;
        nav.lemma_with_active_text(name);
        let texted = nav.with_active_text(name);
        texted.lemma_with_active_icon(icon);
        let iconed = texted.with_active_icon(icon);
        assert(iconed.has(id));
        assert(iconed.position(id) == q);
        assert(iconed.items[q].list == nav.items[q].list);
        assert(t.nav_model == iconed.with_list(id, changed));
    }
}

/// Where no item is active, the icon dialog changes nothing but that it is closed.
pub proof fn law_complete_icon_missing(
    s: TasksView,
    entity: Option<Entity>,
    icon: Seq<char>,
    search: Seq<char>,
    t: TasksView,
    jobs: Seq<JobView>,
)
    requires
        completes(s, DialogPageView::Icon(entity, icon, search), t, jobs),
        s.nav_model.active is None,
    ensures
        t.nav_model == s.nav_model,
        jobs.len() == 0,
{
}

/// A text that the storage exported, and a calendar that was read, open a dialog behind the
/// others that holds just that.
pub proof fn law_answers_open_dialogs(s: TasksView, exported: Seq<char>, calendar: Calendar)
    ensures
        ({
            let (t, jobs) = s.handle(EventView::TasksExported(Some(exported)));
            &&& t == (TasksView {
                dialog_pages: s.dialog_pages + seq![DialogPageView::Export(exported)],
                ..s
            })
            &&& only(jobs, CommandView::Focus(s.dialog_text_input))
        }),
        ({
            let (t, jobs) = s.handle(EventView::CalendarRead(calendar));
            &&& t == (TasksView {
                dialog_pages: s.dialog_pages + seq![DialogPageView::Calendar(calendar)],
                ..s
            })
            &&& only(jobs, CommandView::Focus(s.dialog_text_input))
        }),
{
    law_open_dialog(s, DialogPageView::Export(exported));
    law_open_dialog(s, DialogPageView::Calendar(calendar));
}

/// The escape key closes the foremost dialog and nothing else; where there is none, it closes
/// the context drawer and nothing else. It leaves no job.
pub proof fn law_escape_key(s: TasksView)
    ensures
        ({
            let (t, jobs) = s.handle(EventView::Escape);
            &&& jobs.len() == 0
            &&& s.dialog_pages.len() > 0 ==> t == (TasksView {
                dialog_pages: s.dialog_pages.drop_first(),
                ..s
            })
            &&& s.dialog_pages.len() == 0 ==> t == (TasksView { show_context: false, ..s })
        }),
{
}

// The menu of a navigation item.

/// Exporting from the menu of an item, active or not, exports the list behind that very item,
/// and changes nothing.
pub proof fn law_menu_export(s: TasksView, p: int)
    requires
        s.wf(),
        0 <= p < s.nav_model.items.len(),
    ensures
        ({
            let item = s.nav_model.items[p];
            let (t, jobs) = acted(
                s,
                ApplicationActionView::NavMenuAction(NavMenuAction::Export(item.id)),
            );
            t == s && only(jobs, CommandView::ExportTasks(item.list))
        }),
{
    s.nav_model.lemma_found(p);
}

/// Exporting from the menu of an item that is not there does nothing.
pub proof fn law_menu_export_missing(s: TasksView, id: Entity)
    requires
        about_none(s.nav_model, Some(id)),
    ensures
        acted(s, ApplicationActionView::NavMenuAction(NavMenuAction::Export(id))) == (
            s,
            Seq::<JobView>::empty(),
        ),
{
    lemma_about_none(s.nav_model, Some(id));
}

/// The other entries of the menu open a dialog about the item of that menu, with nothing entered
/// but, in the rename dialog, the present name.
pub proof fn law_menu_dialogs(s: TasksView, id: Entity)
    requires
        s.wf(),
    ensures
        ({
            let (t, jobs) = acted(
                s,
                ApplicationActionView::NavMenuAction(NavMenuAction::SetIcon(id)),
            );
            &&& t == (TasksView {
                dialog_pages: s.dialog_pages + seq![
                    DialogPageView::Icon(Some(id), Seq::empty(), Seq::empty()),
                ],
                ..s
            })
            &&& only(jobs, CommandView::Focus(s.dialog_text_input))
        }),
        ({
            let (t, jobs) = acted(
                s,
                ApplicationActionView::NavMenuAction(NavMenuAction::Delete(id)),
            );
            &&& t == (TasksView {
                dialog_pages: s.dialog_pages + seq![DialogPageView::Delete(Some(id))],
                ..s
            })
            &&& only(jobs, CommandView::Focus(s.dialog_text_input))
        }),
        ({
            let (t, jobs) = acted(
                s,
                ApplicationActionView::NavMenuAction(NavMenuAction::Rename(id)),
            );
            &&& t == (TasksView { dialog_pages: t.dialog_pages, ..s })
            &&& forall|p: int| #[trigger]
                about_item(s.nav_model, Some(id), p) ==> t.dialog_pages == s.dialog_pages + seq![
                    DialogPageView::Rename(Some(id), s.nav_model.items[p].list.name),
                ]
            &&& about_none(s.nav_model, Some(id)) ==> t.dialog_pages == s.dialog_pages
            &&& only(jobs, CommandView::Focus(s.dialog_text_input))
        }),
{
    law_open_dialog(s, DialogPageView::Icon(Some(id), Seq::empty(), Seq::empty()));
    law_open_dialog(s, DialogPageView::Delete(Some(id)));
    law_open_rename(s, Some(id), Seq::empty());
}

// The application as a whole.

/// Closing the window closes the main window, where there is one; a new window is a new process;
/// focusing focuses what is named; and an address is opened as it is. Nothing changes.
pub proof fn law_window_actions(s: TasksView, id: u64, url: Seq<char>)
    ensures
        acted(s, ApplicationActionView::WindowClose).0 == s,
        s.main_window matches Some(window) ==> only(
            acted(s, ApplicationActionView::WindowClose).1,
            CommandView::CloseWindow(window),
        ),
        s.main_window is None ==> acted(s, ApplicationActionView::WindowClose).1.len() == 0,
        acted(s, ApplicationActionView::WindowNew).0 == s,
        only(acted(s, ApplicationActionView::WindowNew).1, CommandView::SpawnWindow),
        acted(s, ApplicationActionView::Focus(id)).0 == s,
        only(acted(s, ApplicationActionView::Focus(id)).1, CommandView::Focus(id)),
        sent(s, MessageView::Open(url)).0 == s,
        only(sent(s, MessageView::Open(url)).1, CommandView::OpenUrl(url)),
{
}

/// What is meant for a page is handed to that page as it is, and changes nothing here.
pub proof fn law_page_messages(s: TasksView, m: content::MessageView, d: details::Message)
    ensures
        sent(s, MessageView::Content(m)).0 == s,
        only(sent(s, MessageView::Content(m)).1, CommandView::UpdateContent(m)),
        sent(s, MessageView::Details(d)).0 == s,
        only(sent(s, MessageView::Details(d)).1, CommandView::UpdateDetails(d)),
{
}

/// Each of the four orders is handed to the content page as it is.
pub proof fn law_sort(s: TasksView)
    ensures
        ({
            let sorts = |action: ApplicationActionView, order: SortType|
                acted(s, action).0 == s && only(
                    acted(s, action).1,
                    CommandView::UpdateContent(content::MessageView::SetSort(order)),
                );
            &&& sorts(ApplicationActionView::SortByNameAsc, SortType::NameAsc)
            &&& sorts(ApplicationActionView::SortByNameDesc, SortType::NameDesc)
            &&& sorts(ApplicationActionView::SortByDateAsc, SortType::DateAsc)
            &&& sorts(ApplicationActionView::SortByDateDesc, SortType::DateDesc)
        }),
{
}

/// The modifier keys that are held are remembered, and nothing else changes.
pub proof fn law_modifiers(s: TasksView, modifiers: Modifiers)
    ensures
        acted(s, ApplicationActionView::Modifiers(modifiers)) == (
            TasksView { modifiers, ..s },
            Seq::<JobView>::empty(),
        ),
{
}

/// A theme that is chosen is in the configuration and is stored, and nothing else changes; the
/// second is the dark one, the third the light one, any other the desktop's. Without a
/// configuration to store to nothing happens.
pub proof fn law_theme(s: TasksView, index: int)
    ensures
        ({
            let (t, jobs) = acted(s, ApplicationActionView::AppTheme(index));
            let theme = t.config.app_theme;
            &&& s.config_handler ==> {
                &&& t == (TasksView { config: ConfigView { app_theme: theme, ..s.config }, ..s })
                &&& only(jobs, CommandView::StoreConfig(ConfigEntryView::AppTheme(theme)))
                &&& theme is Dark <==> index == 1
                &&& theme is Light <==> index == 2
            }
            &&& !s.config_handler ==> t == s && jobs.len() == 0
        }),
{
}

/// Hiding completed tasks, or not, is in the configuration, is stored, and is told to the
/// content page with the whole configuration; nothing else changes. Without a configuration to
/// store to nothing happens.
pub proof fn law_hide_completed(s: TasksView, value: bool)
    ensures
        ({
            let (t, jobs) = acted(s, ApplicationActionView::ToggleHideCompleted(value));
            &&& s.config_handler ==> {
                &&& t == (TasksView { config: ConfigView { hide_completed: value, ..s.config }, ..s
                })
                &&& jobs.len() == 2
                &&& jobs[0] == JobView::Perform(
                    CommandView::StoreConfig(ConfigEntryView::HideCompleted(value)),
                )
                &&& jobs[1] == JobView::Perform(
                    CommandView::UpdateContent(content::MessageView::SetConfig(t.config)),
                )
            }
            &&& !s.config_handler ==> t == s && jobs.len() == 0
        }),
{
}

/// When the theme of the desktop changes, the configured theme is set, whichever it is.
pub proof fn law_theme_mode(s: TasksView)
    ensures
        acted(s, ApplicationActionView::SystemThemeModeChange).0 == s,
        only(
            acted(s, ApplicationActionView::SystemThemeModeChange).1,
            CommandView::SetTheme(s.config.app_theme),
        ),
{
}

/// The context drawer is opened or closed, nothing else changes but the page that is asked for,
/// and the content page hears whether the drawer is open.
pub proof fn law_drawer(s: TasksView, page: ContextPage)
    ensures
        ({
            let (t, jobs) = acted(s, ApplicationActionView::ToggleContextPage(page));
            let open = !s.show_context || s.context_page != page;
            &&& t == (TasksView { context_page: page, show_context: open, ..s })
            &&& only(
                jobs,
                CommandView::UpdateContent(content::MessageView::ContextMenuOpen(open)),
            )
        }),
        ({
            let (t, jobs) = acted(s, ApplicationActionView::ToggleContextDrawer);
            &&& t == (TasksView { show_context: !s.show_context, ..s })
            &&& only(
                jobs,
                CommandView::UpdateContent(
                    content::MessageView::ContextMenuOpen(!s.show_context),
                ),
            )
        }),
{
}

/// Whether `places` lists, in order and each once, the key bindings that match among the first
/// `n`.
pub open spec fn lists_matches(places: Seq<int>, matches: Seq<bool>, n: int) -> bool {
    &&& forall|k: int|
        0 <= k < places.len() ==> 0 <= #[trigger] places[k] < n && places[k] < matches.len()
            && matches[places[k]]
    &&& forall|j: int, k: int|
        0 <= j < k < places.len() ==> #[trigger] places[j] < #[trigger] places[k]
    &&& forall|i: int|
        0 <= i < n && i < matches.len() && #[trigger] matches[i] ==> places.contains(i)
}

/// Where the messages of the matching key bindings come from.
proof fn lemma_matched(binds: Seq<MessageView>, matches: Seq<bool>, n: int) -> (places: Seq<int>)
    requires
        0 <= n <= binds.len(),
    ensures
        lists_matches(places, matches, n),
        model::matched(binds, matches, n).len() == places.len(),
        forall|k: int|
            0 <= k < places.len() ==> #[trigger] model::matched(binds, matches, n)[k]
                == JobView::Handle(EventView::Message(binds[places[k]])),
    decreases n,
{
    if n == 0 {
        Seq::empty()
    } else {
        let before = lemma_matched(binds, matches, n - 1);
        if n <= matches.len() && matches[n - 1] {
            let places = before.push(n - 1);
            assert forall|i: int|
                0 <= i < n && i < matches.len() && #[trigger] matches[i] implies places.contains(
                i,
            ) by {
                if i == n - 1 {
                    assert(places[before.len() as int] == i);
                } else {
                    assert(before.contains(i));
                    let k = choose|k: int| 0 <= k < before.len() && before[k] == i;
                    assert(places[k] == i);
                }
            }
            assert forall|k: int| 0 <= k < places.len() implies #[trigger] model::matched(
                binds,
                matches,
                n,
            )[k] == JobView::Handle(EventView::Message(binds[places[k]])) by {
                if k < before.len() {
                    assert(model::matched(binds, matches, n)[k] == model::matched(
                        binds,
                        matches,
                        n - 1,
                    )[k]);
                }
            }
            places
        } else {
            before
        }
    }
}

/// A key sends the messages of the bindings that it matches: each once, in the order of the
/// bindings, and no other. Nothing else comes of it.
pub proof fn law_key(s: TasksView, matches: Seq<bool>) -> (places: Seq<int>)
    ensures
        lists_matches(places, matches, s.key_binds.len() as int),
        ({
            let (t, jobs) = acted(s, ApplicationActionView::Key(matches));
            &&& t == s
            &&& jobs.len() == places.len()
            &&& forall|k: int|
                0 <= k < places.len() ==> #[trigger] jobs[k] == JobView::Handle(
                    EventView::Message(s.key_binds[places[k]]),
                )
        }),
{
    lemma_matched(s.key_binds, matches, s.key_binds.len() as int)
}

// The pages.

/// What the content page asks for is served, all of it and in order.
pub proof fn law_content_outputs(s: TasksView, outputs: Seq<content::OutputView>)
    ensures
        ({
            let (t, jobs) = s.handle(EventView::ContentUpdated(outputs));
            &&& t == s
            &&& jobs.len() == outputs.len()
            &&& forall|i: int|
                0 <= i < outputs.len() ==> #[trigger] jobs[i] == JobView::ServeContent(outputs[i])
        }),
{
}

/// The details page is taken over as it is after its message, and what it asks for is served,
/// all of it and in order; after a due date was set, nothing is served.
pub proof fn law_details_outputs(
    s: TasksView,
    details: DetailsView,
    outputs: Seq<details::OutputView>,
)
    ensures
        ({
            let (t, jobs) = s.handle(EventView::DetailsUpdated(details, outputs));
            &&& t == (TasksView { details, ..s })
            &&& jobs.len() == outputs.len()
            &&& forall|i: int|
                0 <= i < outputs.len() ==> #[trigger] jobs[i] == JobView::ServeDetails(outputs[i])
        }),
        s.handle(EventView::DueDateSet(details)) == (
            TasksView { details, ..s },
            Seq::<JobView>::empty(),
        ),
{
}

/// Opening the details of a task shows that task with its own notes in the editor, whatever was
/// shown before, and marks its priority if the page offers it, else leaves the mark. The page of
/// the context drawer is then the details page, and the drawer is open unless the details were
/// on show. Nothing else changes.
pub proof fn law_open_details(s: TasksView, task: TaskView)
    ensures
        ({
            let (t, jobs) = s.after_job(
                JobView::ServeContent(content::OutputView::OpenTaskDetails(task)),
            );
            let open = !s.show_context || s.context_page != ContextPage::TaskDetails;
            &&& t == (TasksView {
                details: t.details,
                context_page: ContextPage::TaskDetails,
                show_context: open,
                ..s
            })
            &&& t.details.task == task
            &&& t.details.text_editor_content == task.notes
            &&& t.details.priorities == s.details.priorities
            &&& task.priority < s.details.priorities ==> t.details.active_priority == Some(
                task.priority,
            )
            &&& task.priority >= s.details.priorities ==> t.details.active_priority
                == s.details.active_priority
            &&& only(
                jobs,
                CommandView::UpdateContent(content::MessageView::ContextMenuOpen(open)),
            )
        }),
{
}

/// The details of a task do not depend on what was shown before: neither the task nor the text
/// in the editor.
pub proof fn law_details_forget(a: DetailsView, b: DetailsView, task: TaskView)
    ensures
        a.showing(task).task == b.showing(task).task,
        a.showing(task).text_editor_content == b.showing(task).text_editor_content,
        a.showing(task).text_editor_content == task.notes,
        a.showing(task).task == task,
        a.showing(task).priorities == a.priorities,
        task.priority < a.priorities ==> a.showing(task).active_priority == Some(task.priority),
        task.priority >= a.priorities ==> a.showing(task).active_priority == a.active_priority,
{
}

/// Hiding the completed tasks of a list, or not, is noted of the list behind the active item,
/// and nothing else of it; the storage gets the list that the content page named. Where no item
/// is active nothing happens.
pub proof fn law_toggle_hide_completed(s: TasksView, list: ListView)
    requires
        s.wf(),
    ensures
        ({
            let (t, jobs) = s.after_job(
                JobView::ServeContent(content::OutputView::ToggleHideCompleted(list)),
            );
            &&& t == (TasksView { nav_model: t.nav_model, ..s })
            &&& forall|q: int| #[trigger]
                about_item(s.nav_model, None, q) ==> {
                    &&& only(jobs, CommandView::UpdateList(list))
                    &&& same_but_at(t.nav_model, s.nav_model, q, q)
                    &&& t.nav_model.items[q] == (NavItemView {
                        list: ListView {
                            hide_completed: list.hide_completed,
                            ..s.nav_model.items[q].list
                        },
                        ..s.nav_model.items[q]
                    })
                }
            &&& s.nav_model.active is None ==> t == s && jobs.len() == 0
        }),
{
    let (t, jobs) = s.after_job(
        JobView::ServeContent(content::OutputView::ToggleHideCompleted(list)),
    );
    if s.nav_model.active is Some {
        law_about(s.nav_model, None);
        let q = choose|q: int| about_item(s.nav_model, None, q);
        lemma_about_item(s.nav_model, None, q);
        s.nav_model.lemma_with_list(
            s.nav_model.items[q].id,
            ListView { hide_completed: list.hide_completed, ..s.nav_model.items[q].list },
        );
    }
}

/// The other wishes of the pages: a widget is focused, the calendar is read for a dialog, and
/// the content page gets a task that changed. Nothing changes here.
pub proof fn law_page_wishes(s: TasksView, id: u64, task: TaskView)
    ensures
        ({
            let (t, jobs) = s.after_job(JobView::ServeContent(content::OutputView::Focus(id)));
            t == s && only(jobs, CommandView::Focus(id))
        }),
        ({
            let (t, jobs) = s.after_job(
                JobView::ServeDetails(details::OutputView::OpenCalendarDialog),
            );
            t == s && only(jobs, CommandView::ReadCalendar)
        }),
        ({
            let (t, jobs) = s.after_job(
                JobView::ServeDetails(details::OutputView::RefreshTask(task)),
            );
            t == s && only(
                jobs,
                CommandView::UpdateContent(content::MessageView::RefreshTask(task)),
            )
        }),
{
}

// The preferences.

/// Each edit changes the one thing that is edited, to what is given, and leaves no job.
pub proof fn law_edit_preferences(s: TasksView, i: int, edit: Seq<char>)
    ensures
        ({
            let becomes = |message: PreferencesMessageView, p: PreferencesView|
                sent(s, MessageView::Preferences(message)) == (
                    TasksView { preferences: p, ..s },
                    Seq::<JobView>::empty(),
                );
            let p = s.preferences;
            &&& becomes(
                PreferencesMessageView::SetProvider(i),
                PreferencesView { selected_provider: i, ..p },
            )
            &&& becomes(
                PreferencesMessageView::SetModelIdx(i),
                PreferencesView { selected_model: i, ..p },
            )
            &&& becomes(
                PreferencesMessageView::SetApiBase(edit),
                PreferencesView { api_base: edit, ..p },
            )
            &&& becomes(
                PreferencesMessageView::SetApiKey(edit),
                PreferencesView { api_key: edit, ..p },
            )
        }),
{
}

/// What is chosen among options: the one at the place, or a default past the end.
pub open spec fn chosen(options: Seq<Seq<char>>, i: int, default: Seq<char>) -> Seq<char> {
    if 0 <= i < options.len() {
        options[i]
    } else {
        default
    }
}

/// Saving stores the chosen provider, the chosen model and the address as they are, in the
/// configuration in memory and outside, where there is one to store to; and in any case, last,
/// the trimmed key. The status then says so, whatever it said before. Nothing else changes.
pub proof fn law_save(s: TasksView)
    ensures
        ({
            let (t, jobs) = sent(s, MessageView::Preferences(PreferencesMessageView::Save));
            let p = s.preferences;
            let provider = chosen(p.provider_options, p.selected_provider, "OpenAI"@);
            let model = chosen(p.model_options, p.selected_model, "gpt-4o-mini"@);
            let store = |entry: ConfigEntryView| JobView::Perform(CommandView::StoreConfig(entry));
            let key = JobView::Perform(CommandView::StoreKey(text::trimmed(p.api_key)));
            &&& t == (TasksView {
                config: t.config,
                preferences: PreferencesView { test_status: Some("Saved."@), ..p },
                ..s
            })
            &&& s.config_handler ==> {
                &&& t.config == (ConfigView {
                    llm_provider: provider,
                    llm_model: model,
                    llm_api_base: p.api_base,
                    ..s.config
                })
                &&& jobs.len() == 4
                &&& jobs[0] == store(ConfigEntryView::LlmProvider(provider))
                &&& jobs[1] == store(ConfigEntryView::LlmModel(model))
                &&& jobs[2] == store(ConfigEntryView::LlmApiBase(p.api_base))
                &&& jobs[3] == key
            }
            &&& !s.config_handler ==> {
                &&& t.config == s.config
                &&& jobs.len() == 1
                &&& jobs[0] == key
            }
        }),
{
}

/// Testing the connection, with a key that is not just white space, asks the service at the
/// address for its models with the trimmed key, at once and once, and shows that a test is under
/// way, whatever the status was before, after a save or another test as well. Nothing else
/// changes.
pub proof fn law_test_asks(s: TasksView)
    requires
        text::trimmed(s.preferences.api_key).len() > 0,
    ensures
        ({
            let (t, jobs) = sent(s, MessageView::Preferences(PreferencesMessageView::Test));
            &&& t == (TasksView {
                preferences: PreferencesView { testing: true, test_status: None, ..s.preferences },
                ..s
            })
            &&& only(
                jobs,
                CommandView::TestConnection {
                    url: preferences::models_url(s.preferences.api_base),
                    key: text::trimmed(s.preferences.api_key),
                    timeout_secs: 5,
                },
            )
        }),
{
}

/// What a test asks for depends on the address and the key alone: not on the status, on an
/// earlier test, or on anything else.
pub proof fn law_test_again(a: TasksView, b: TasksView)
    requires
        a.preferences.api_base == b.preferences.api_base,
        a.preferences.api_key == b.preferences.api_key,
    ensures
        ({
            let test = MessageView::Preferences(PreferencesMessageView::Test);
            &&& sent(a, test).1 == sent(b, test).1
            &&& sent(sent(a, test).0, test).1 == sent(a, test).1
        }),
{
}

/// Testing with a key that is just white space asks for nothing, and says why.
pub proof fn law_test_without_key(s: TasksView)
    requires
        text::trimmed(s.preferences.api_key).len() == 0,
    ensures
        sent(s, MessageView::Preferences(PreferencesMessageView::Test)) == (
            TasksView {
                preferences: PreferencesView {
                    testing: false,
                    test_status: Some("Provide an API key to test."@),
                    ..s.preferences
                },
                ..s
            },
            Seq::<JobView>::empty(),
        ),
{
}

/// What is shown after a test: success for the statuses from 200 to 299, whatever the service
/// said besides; else the status and the first 160 characters of what it said; and the error
/// where there was no answer.
pub open spec fn verdict(outcome: TestOutcomeView) -> Seq<char> {
    match outcome {
        TestOutcomeView::ClientError(error) => "Failed: client error: "@ + error,
        TestOutcomeView::RequestError(error) => "Failed: request error: "@ + error,
        TestOutcomeView::Response { status, body } => if 200 <= status && status <= 299 {
            "Success: API reachable"@
        } else {
            "Failed: HTTP "@ + text::decimal(status as nat) + ": "@ + body.take(
                if body.len() < 160 {
                    body.len() as int
                } else {
                    160
                },
            )
        },
    }
}

/// The outcome of a test ends it and is shown, whatever was shown before. Nothing else changes.
pub proof fn law_test_outcome(s: TasksView, outcome: TestOutcomeView)
    ensures
        s.handle(EventView::ConnectionTested(outcome)) == (
            TasksView {
                preferences: PreferencesView {
                    testing: false,
                    test_status: Some(verdict(outcome)),
                    ..s.preferences
                },
                ..s
            },
            Seq::<JobView>::empty(),
        ),
{
    if let TestOutcomeView::Response { status, body } = outcome {
        if body.len() <= 160 {
            assert(body.take(body.len() as int) =~= body);
        }
    }
}

// What the events go through.

/// The ways to the same operation come to the same.
pub proof fn law_entry_points(
    s: TasksView,
    message: MessageView,
    tasks: TasksActionView,
    action: ApplicationActionView,
    dialogs: DialogActionView,
    edit: PreferencesMessageView,
    id: Entity,
    outcome: TestOutcomeView,
)
    ensures
        s.update(message) == s.handle(EventView::Message(message)),
        s.update_tasks(tasks) == sent(s, MessageView::Tasks(tasks)),
        s.update_app(action) == acted(s, action),
        s.update_dialog(dialogs) == dialog(s, dialogs),
        s.update_preferences(edit) == sent(s, MessageView::Preferences(edit)),
        s.select(id) == s.handle(EventView::NavSelected(id)),
        s.escape() == s.handle(EventView::Escape).0,
        s.tested(outcome) == s.handle(EventView::ConnectionTested(outcome)).0,
{
}

/// The same for what the pages ask for.
pub proof fn law_serving(
    s: TasksView,
    wish: content::OutputView,
    other: details::OutputView,
    wishes: Seq<content::OutputView>,
    others: Seq<details::OutputView>,
    details: DetailsView,
    event: EventView,
)
    ensures
        s.serve_content(wish) == s.after_job(JobView::ServeContent(wish)),
        s.serve_details(other) == s.after_job(JobView::ServeDetails(other)),
        model::content_jobs(wishes) == s.handle(EventView::ContentUpdated(wishes)).1,
        model::details_jobs(others) == s.handle(EventView::DetailsUpdated(details, others)).1,
        s.handle(event) == s.after_job(JobView::Handle(event)),
{
}

/// An event is refused only where a dialog is to be replaced and none is open, or where no names
/// are left for new items: a name is left for as many as keep below the largest.
pub proof fn law_admitted(s: TasksView, event: EventView, n: int)
    ensures
        s.has_room(n) <==> s.nav_model.next + n <= Entity::MAX,
        !s.admits(event) <==> {
            ||| event matches EventView::Message(
                MessageView::Application(ApplicationActionView::Dialog(
                    DialogActionView::Update(_),
                )),
            ) && s.dialog_pages.len() == 0
            ||| event matches EventView::Message(
                MessageView::Tasks(TasksActionView::PopulateLists(lists)),
            ) && s.nav_model.next + lists.len() > Entity::MAX
            ||| event matches EventView::Message(MessageView::Tasks(TasksActionView::AddList(_)))
                && s.nav_model.next + 1 > Entity::MAX
            ||| event matches EventView::ListsFetched(Some(lists)) && s.nav_model.next
                + lists.len() > Entity::MAX
            ||| event matches EventView::ListCreated(Some(_)) && s.nav_model.next + 1
                > Entity::MAX
        },
        event matches EventView::Message(message) ==> s.admits_message(message) == s.admits(event),
{
}

} // verus!
