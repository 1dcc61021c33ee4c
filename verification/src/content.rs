//! What the application and its content page say to each other.

use vstd::prelude::*;

use crate::config::{ConfigView, TasksConfig};
use crate::storage::{List, ListView, Task, TaskView};
use crate::views;

verus! {

/// The orders in which the content page can show tasks.
#[derive(Debug, Clone, Copy, PartialEq, Eq, Structural)]
pub enum SortType {
    NameAsc,
    NameDesc,
    DateAsc,
    DateDesc,
}

/// A message to the content page. `Page` stands for the page's own messages, each by the
/// number under which the page keeps it.
#[derive(Debug)]
pub enum Message {
    RefreshTask(Task),
    SetList(Option<List>),
    SetConfig(TasksConfig),
    ContextMenuOpen(bool),
    SetSort(SortType),
    Page(u64),
}

#[verifier::ext_equal]
pub enum MessageView {
    RefreshTask(TaskView),
    SetList(Option<ListView>),
    SetConfig(ConfigView),
    ContextMenuOpen(bool),
    SetSort(SortType),
    Page(u64),
}

impl View for Message {
    type V = MessageView;

    open spec fn view(&self) -> MessageView {
        match self {
            Message::RefreshTask(task) => MessageView::RefreshTask(task@),
            Message::SetList(list) => MessageView::SetList(views::opt_view(*list)),
            Message::SetConfig(config) => MessageView::SetConfig(config@),
            Message::ContextMenuOpen(open) => MessageView::ContextMenuOpen(*open),
            Message::SetSort(sort) => MessageView::SetSort(*sort),
            Message::Page(number) => MessageView::Page(*number),
        }
    }
}

impl Clone for Message {
    fn clone(&self) -> (r: Self)
        ensures
            r@ == self@,
    {
        match self {
            Message::RefreshTask(task) => Message::RefreshTask(task.clone()),
            Message::SetList(list) => match list {
                Some(list) => Message::SetList(Some(list.clone())),
                None => Message::SetList(None),
            },
            Message::SetConfig(config) => Message::SetConfig(config.clone()),
            Message::ContextMenuOpen(open) => Message::ContextMenuOpen(*open),
            Message::SetSort(sort) => Message::SetSort(*sort),
            Message::Page(number) => Message::Page(*number),
        }
    }
}

/// What the content page asks of the application. `Focus` names the widget to focus.
#[derive(Debug)]
pub enum Output {
    Focus(u64),
    OpenTaskDetails(Task),
    ToggleHideCompleted(List),
}

#[verifier::ext_equal]
pub enum OutputView {
    Focus(u64),
    OpenTaskDetails(TaskView),
    ToggleHideCompleted(ListView),
}

impl View for Output {
    type V = OutputView;

    open spec fn view(&self) -> OutputView {
        match self {
            Output::Focus(id) => OutputView::Focus(*id),
            Output::OpenTaskDetails(task) => OutputView::OpenTaskDetails(task@),
            Output::ToggleHideCompleted(list) => OutputView::ToggleHideCompleted(list@),
        }
    }
}

} // verus!
