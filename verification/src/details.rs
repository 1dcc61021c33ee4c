//! The details page of a task, as far as the application itself reads and fills it.

use vstd::prelude::*;

use crate::storage::{Task, TaskView};

verus! {

/// A calendar day.
#[derive(Debug, Clone, Copy, PartialEq, Eq, Structural)]
pub struct Date {
    pub year: i32,
    pub month: u32,
    pub day: u32,
}

/// The state of the calendar widget: the chosen day, and the day whose month is shown.
#[derive(Debug, Clone, Copy, PartialEq, Eq, Structural)]
pub struct Calendar {
    pub selected: Date,
    pub visible: Date,
}

/// A message to the details page. `Page` stands for the page's own messages, each by the
/// number under which the page keeps it.
#[derive(Debug, Clone, Copy, PartialEq, Eq, Structural)]
pub enum Message {
    SetDueDate(Date),
    Page(u64),
}

/// What the details page asks of the application.
#[derive(Debug)]
pub enum Output {
    OpenCalendarDialog,
    RefreshTask(Task),
}

#[verifier::ext_equal]
pub enum OutputView {
    OpenCalendarDialog,
    RefreshTask(TaskView),
}

impl View for Output {
    type V = OutputView;

    open spec fn view(&self) -> OutputView {
        match self {
            Output::OpenCalendarDialog => OutputView::OpenCalendarDialog,
            Output::RefreshTask(task) => OutputView::RefreshTask(task@),
        }
    }
}

/// The details page: the task that it shows, the text in its notes editor, how many
/// priorities it offers, and the position of the priority that is marked.
#[derive(Debug)]
pub struct Details {
    pub task: Task,
    pub text_editor_content: String,
    pub priorities: u16,
    pub active_priority: Option<u16>,
}

#[verifier::ext_equal]
pub struct DetailsView {
    pub task: TaskView,
    pub text_editor_content: Seq<char>,
    pub priorities: u16,
    pub active_priority: Option<u16>,
}

impl View for Details {
    type V = DetailsView;

    open spec fn view(&self) -> DetailsView {
        DetailsView {
            task: self.task@,
            text_editor_content: self.text_editor_content@,
            priorities: self.priorities,
            active_priority: self.active_priority,
        }
    }
}

impl Clone for Details {
    fn clone(&self) -> (r: Self)
        ensures
            r@ == self@,
    {
        Details {
            task: self.task.clone(),
            text_editor_content: self.text_editor_content.clone(),
            priorities: self.priorities,
            active_priority: self.active_priority,
        }
    }
}

impl DetailsView {
    /// The page once it shows `task`: its notes are in the editor, and its priority is marked
    /// where the page offers one at that position.
    pub open spec fn showing(self, task: TaskView) -> DetailsView {
        DetailsView {
            task,
            text_editor_content: task.notes,
            priorities: self.priorities,
            active_priority: if task.priority < self.priorities {
                Some(task.priority)
            } else {
                self.active_priority
            },
        }
    }
}

impl Details {
    /// Shows a task.
    pub fn show(&mut self, task: Task)
        ensures
            final(self)@ == old(self)@.showing(task@),
    {
        if task.priority < self.priorities {
            self.active_priority = Some(task.priority);
        }
        self.text_editor_content = task.notes.clone();
        self.task = task;
    }
}

} // verus!
