//! What menus, keys and dialogs ask of the application.

use vstd::prelude::*;

use crate::dialog::{DialogAction, DialogActionView};
use crate::nav::Entity;
use crate::storage;
use crate::storage::{List, ListView};
use crate::views;

verus! {

/// What the context drawer shows.
#[derive(Debug, Clone, Copy, PartialEq, Eq, Structural)]
pub enum ContextPage {
    About,
    Settings,
    TaskDetails,
}

/// The modifier keys that are held, one bit each.
#[derive(Debug, Clone, Copy, PartialEq, Eq, Structural)]
pub struct Modifiers {
    pub bits: u32,
}

/// The entries of the menu of a navigation item.
#[derive(Debug, Clone, Copy, PartialEq, Eq, Structural)]
pub enum NavMenuAction {
    Rename(Entity),
    SetIcon(Entity),
    Export(Entity),
    Delete(Entity),
}

/// Actions on the application as a whole. `Key` says of each key binding, in their order,
/// whether the pressed key matches it. `AppTheme` names a theme by its position in the
/// settings, `Focus` the widget to focus.
#[derive(Debug)]
pub enum ApplicationAction {
    WindowClose,
    WindowNew,
    AppTheme(usize),
    ToggleHideCompleted(bool),
    SystemThemeModeChange,
    Key(Vec<bool>),
    Modifiers(Modifiers),
    NavMenuAction(NavMenuAction),
    ToggleContextPage(ContextPage),
    ToggleContextDrawer,
    Dialog(DialogAction),
    Focus(u64),
    SortByNameAsc,
    SortByNameDesc,
    SortByDateAsc,
    SortByDateDesc,
}

#[verifier::ext_equal]
pub enum ApplicationActionView {
    WindowClose,
    WindowNew,
    AppTheme(int),
    ToggleHideCompleted(bool),
    SystemThemeModeChange,
    Key(Seq<bool>),
    Modifiers(Modifiers),
    NavMenuAction(NavMenuAction),
    ToggleContextPage(ContextPage),
    ToggleContextDrawer,
    Dialog(DialogActionView),
    Focus(u64),
    SortByNameAsc,
    SortByNameDesc,
    SortByDateAsc,
    SortByDateDesc,
}

impl View for ApplicationAction {
    type V = ApplicationActionView;

    open spec fn view(&self) -> ApplicationActionView {
        match self {
            ApplicationAction::WindowClose => ApplicationActionView::WindowClose,
            ApplicationAction::WindowNew => ApplicationActionView::WindowNew,
            ApplicationAction::AppTheme(index) => ApplicationActionView::AppTheme(*index as int),
            ApplicationAction::ToggleHideCompleted(value) =>
                ApplicationActionView::ToggleHideCompleted(*value),
            ApplicationAction::SystemThemeModeChange =>
                ApplicationActionView::SystemThemeModeChange,
            ApplicationAction::Key(matches) => ApplicationActionView::Key(matches@),
            ApplicationAction::Modifiers(modifiers) => ApplicationActionView::Modifiers(*modifiers),
            ApplicationAction::NavMenuAction(action) => ApplicationActionView::NavMenuAction(
                *action,
            ),
            ApplicationAction::ToggleContextPage(page) => ApplicationActionView::ToggleContextPage(
                *page,
            ),
            ApplicationAction::ToggleContextDrawer => ApplicationActionView::ToggleContextDrawer,
            ApplicationAction::Dialog(action) => ApplicationActionView::Dialog(action@),
            ApplicationAction::Focus(id) => ApplicationActionView::Focus(*id),
            ApplicationAction::SortByNameAsc => ApplicationActionView::SortByNameAsc,
            ApplicationAction::SortByNameDesc => ApplicationActionView::SortByNameDesc,
            ApplicationAction::SortByDateAsc => ApplicationActionView::SortByDateAsc,
            ApplicationAction::SortByDateDesc => ApplicationActionView::SortByDateDesc,
        }
    }
}

/// A copy of a list of truth values.
fn clone_bools(v: &Vec<bool>) -> (r: Vec<bool>)
    ensures
        r@ == v@,
{
    let mut r: Vec<bool> = Vec::new();
    let mut i: usize = 0;
    while i < v.len()
        invariant
            i <= v.len(),
            r@ == v@.take(i as int),
        decreases v.len() - i,
    {
        r.push(v[i]);
        i = i + 1;
    }
    assert(v@.take(v@.len() as int) =~= v@);
    r
}

impl Clone for ApplicationAction {
    fn clone(&self) -> (r: Self)
        ensures
            r@ == self@,
    {
        match self {
            ApplicationAction::WindowClose => ApplicationAction::WindowClose,
            ApplicationAction::WindowNew => ApplicationAction::WindowNew,
            ApplicationAction::AppTheme(index) => ApplicationAction::AppTheme(*index),
            ApplicationAction::ToggleHideCompleted(value) =>
                ApplicationAction::ToggleHideCompleted(*value),
            ApplicationAction::SystemThemeModeChange => ApplicationAction::SystemThemeModeChange,
            ApplicationAction::Key(matches) => ApplicationAction::Key(clone_bools(matches)),
            ApplicationAction::Modifiers(modifiers) => ApplicationAction::Modifiers(*modifiers),
            ApplicationAction::NavMenuAction(action) => ApplicationAction::NavMenuAction(*action),
            ApplicationAction::ToggleContextPage(page) => ApplicationAction::ToggleContextPage(
                *page,
            ),
            ApplicationAction::ToggleContextDrawer => ApplicationAction::ToggleContextDrawer,
            ApplicationAction::Dialog(action) => ApplicationAction::Dialog(action.clone()),
            ApplicationAction::Focus(id) => ApplicationAction::Focus(*id),
            ApplicationAction::SortByNameAsc => ApplicationAction::SortByNameAsc,
            ApplicationAction::SortByNameDesc => ApplicationAction::SortByNameDesc,
            ApplicationAction::SortByDateAsc => ApplicationAction::SortByDateAsc,
            ApplicationAction::SortByDateDesc => ApplicationAction::SortByDateDesc,
        }
    }
}

/// Actions on the task lists.
#[derive(Debug)]
pub enum TasksAction {
    FetchLists,
    PopulateLists(Vec<List>),
    AddList(List),
    DeleteList(Option<Entity>),
}

#[verifier::ext_equal]
pub enum TasksActionView {
    FetchLists,
    PopulateLists(Seq<ListView>),
    AddList(ListView),
    DeleteList(Option<Entity>),
}

impl View for TasksAction {
    type V = TasksActionView;

    open spec fn view(&self) -> TasksActionView {
        match self {
            TasksAction::FetchLists => TasksActionView::FetchLists,
            TasksAction::PopulateLists(lists) => TasksActionView::PopulateLists(
                views::seq_view(lists@),
            ),
            TasksAction::AddList(list) => TasksActionView::AddList(list@),
            TasksAction::DeleteList(entity) => TasksActionView::DeleteList(*entity),
        }
    }
}

impl Clone for TasksAction {
    fn clone(&self) -> (r: Self)
        ensures
            r@ == self@,
    {
        match self {
            TasksAction::FetchLists => TasksAction::FetchLists,
            TasksAction::PopulateLists(lists) => TasksAction::PopulateLists(
                storage::clone_lists(lists),
            ),
            TasksAction::AddList(list) => TasksAction::AddList(list.clone()),
            TasksAction::DeleteList(entity) => TasksAction::DeleteList(*entity),
        }
    }
}

} // verus!
