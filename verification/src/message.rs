//! The messages of the application, what happens around it, and what it leaves to be done.

use vstd::prelude::*;

use crate::actions::{
    ApplicationAction, ApplicationActionView, TasksAction, TasksActionView,
};
use crate::config::{AppTheme, ConfigEntry, ConfigEntryView};
use crate::content;
use crate::details;
use crate::details::{Calendar, Date, Details, DetailsView};
use crate::nav::Entity;
use crate::preferences::{TestOutcome, TestOutcomeView};
use crate::storage::{List, ListView};
use crate::views;

verus! {

/// Edits of the preferences, and the two buttons below them.
#[derive(Debug)]
pub enum PreferencesMessage {
    SetProvider(usize),
    SetModelIdx(usize),
    SetApiBase(String),
    SetApiKey(String),
    Save,
    Test,
}

#[verifier::ext_equal]
pub enum PreferencesMessageView {
    SetProvider(int),
    SetModelIdx(int),
    SetApiBase(Seq<char>),
    SetApiKey(Seq<char>),
    Save,
    Test,
}

impl View for PreferencesMessage {
    type V = PreferencesMessageView;

    open spec fn view(&self) -> PreferencesMessageView {
        match self {
            PreferencesMessage::SetProvider(i) => PreferencesMessageView::SetProvider(*i as int),
            PreferencesMessage::SetModelIdx(i) => PreferencesMessageView::SetModelIdx(*i as int),
            PreferencesMessage::SetApiBase(s) => PreferencesMessageView::SetApiBase(s@),
            PreferencesMessage::SetApiKey(s) => PreferencesMessageView::SetApiKey(s@),
            PreferencesMessage::Save => PreferencesMessageView::Save,
            PreferencesMessage::Test => PreferencesMessageView::Test,
        }
    }
}

impl Clone for PreferencesMessage {
    fn clone(&self) -> (r: Self)
        ensures
            r@ == self@,
    {
        match self {
            PreferencesMessage::SetProvider(i) => PreferencesMessage::SetProvider(*i),
            PreferencesMessage::SetModelIdx(i) => PreferencesMessage::SetModelIdx(*i),
            PreferencesMessage::SetApiBase(s) => PreferencesMessage::SetApiBase(s.clone()),
            PreferencesMessage::SetApiKey(s) => PreferencesMessage::SetApiKey(s.clone()),
            PreferencesMessage::Save => PreferencesMessage::Save,
            PreferencesMessage::Test => PreferencesMessage::Test,
        }
    }
}

/// A message to the application. `Open` names an address to be opened in the browser.
#[derive(Debug)]
pub enum Message {
    Content(content::Message),
    Details(details::Message),
    Tasks(TasksAction),
    Application(ApplicationAction),
    Open(String),
    Preferences(PreferencesMessage),
}

#[verifier::ext_equal]
pub enum MessageView {
    Content(content::MessageView),
    Details(details::Message),
    Tasks(TasksActionView),
    Application(ApplicationActionView),
    Open(Seq<char>),
    Preferences(PreferencesMessageView),
}

impl View for Message {
    type V = MessageView;

    open spec fn view(&self) -> MessageView {
        match self {
            Message::Content(message) => MessageView::Content(message@),
            Message::Details(message) => MessageView::Details(*message),
            Message::Tasks(action) => MessageView::Tasks(action@),
            Message::Application(action) => MessageView::Application(action@),
            Message::Open(url) => MessageView::Open(url@),
            Message::Preferences(message) => MessageView::Preferences(message@),
        }
    }
}

impl Clone for Message {
    fn clone(&self) -> (r: Self)
        ensures
            r@ == self@,
    {
        match self {
            Message::Content(message) => Message::Content(message.clone()),
            Message::Details(message) => Message::Details(*message),
            Message::Tasks(action) => Message::Tasks(action.clone()),
            Message::Application(action) => Message::Application(action.clone()),
            Message::Open(url) => Message::Open(url.clone()),
            Message::Preferences(message) => Message::Preferences(message.clone()),
        }
    }
}

/// What happens around the application: a message, a choice in the navigation bar, the escape
/// key, and the answers to commands. An answer without a value reports that the command
/// failed.
#[derive(Debug)]
pub enum Event {
    Message(Message),
    NavSelected(Entity),
    Escape,
    ContentUpdated(Vec<content::Output>),
    DetailsUpdated(Details, Vec<details::Output>),
    DueDateSet(Details),
    ListsFetched(Option<Vec<List>>),
    ListCreated(Option<List>),
    TasksExported(Option<String>),
    CalendarRead(Calendar),
    ConnectionTested(TestOutcome),
}

#[verifier::ext_equal]
pub enum EventView {
    Message(MessageView),
    NavSelected(Entity),
    Escape,
    ContentUpdated(Seq<content::OutputView>),
    DetailsUpdated(DetailsView, Seq<details::OutputView>),
    DueDateSet(DetailsView),
    ListsFetched(Option<Seq<ListView>>),
    ListCreated(Option<ListView>),
    TasksExported(Option<Seq<char>>),
    CalendarRead(Calendar),
    ConnectionTested(TestOutcomeView),
}

impl View for Event {
    type V = EventView;

    open spec fn view(&self) -> EventView {
        match self {
            Event::Message(message) => EventView::Message(message@),
            Event::NavSelected(id) => EventView::NavSelected(*id),
            Event::Escape => EventView::Escape,
            Event::ContentUpdated(outputs) => EventView::ContentUpdated(views::seq_view(outputs@)),
            Event::DetailsUpdated(details, outputs) => EventView::DetailsUpdated(
                details@,
                views::seq_view(outputs@),
            ),
            Event::DueDateSet(details) => EventView::DueDateSet(details@),
            Event::ListsFetched(lists) => EventView::ListsFetched(
                match lists {
                    Some(lists) => Some(views::seq_view(lists@)),
                    None => None,
                },
            ),
            Event::ListCreated(list) => EventView::ListCreated(views::opt_view(*list)),
            Event::TasksExported(text) => EventView::TasksExported(views::opt_view(*text)),
            Event::CalendarRead(calendar) => EventView::CalendarRead(*calendar),
            Event::ConnectionTested(outcome) => EventView::ConnectionTested(outcome@),
        }
    }
}

/// What is to be done outside this library.
///
/// These are answered: `UpdateContent` and `UpdateDetails` hand a message to a page, and the
/// page's outputs come back; `SetDueDate` hands the details page a date, and the page comes
/// back; `FetchLists`, `CreateList` (with the name of the new list) and `ExportTasks` (the
/// tasks of a list, as Markdown) bring what the storage made of them; `ReadCalendar` brings
/// the calendar at today's date; `TestConnection` brings the outcome of a request for `url`
/// with `key` as its bearer token. The others are not.
#[derive(Debug)]
pub enum Command {
    Focus(u64),
    CloseWindow(u64),
    SpawnWindow,
    SetWindowTitle(u64, String),
    ToggleNavBarCondensed,
    SetTheme(AppTheme),
    OpenUrl(String),
    SetClipboard(String),
    StoreConfig(ConfigEntry),
    StoreKey(String),
    UpdateList(List),
    DeleteList(List),
    UpdateContent(content::Message),
    UpdateDetails(details::Message),
    SetDueDate(Date),
    FetchLists,
    CreateList(String),
    ExportTasks(List),
    ReadCalendar,
    TestConnection { url: String, key: String, timeout_secs: u64 },
}

#[verifier::ext_equal]
pub enum CommandView {
    Focus(u64),
    CloseWindow(u64),
    SpawnWindow,
    SetWindowTitle(u64, Seq<char>),
    ToggleNavBarCondensed,
    SetTheme(AppTheme),
    OpenUrl(Seq<char>),
    SetClipboard(Seq<char>),
    StoreConfig(ConfigEntryView),
    StoreKey(Seq<char>),
    UpdateList(ListView),
    DeleteList(ListView),
    UpdateContent(content::MessageView),
    UpdateDetails(details::Message),
    SetDueDate(Date),
    FetchLists,
    CreateList(Seq<char>),
    ExportTasks(ListView),
    ReadCalendar,
    TestConnection { url: Seq<char>, key: Seq<char>, timeout_secs: u64 },
}

impl View for Command {
    type V = CommandView;

    open spec fn view(&self) -> CommandView {
        match self {
            Command::Focus(id) => CommandView::Focus(*id),
            Command::CloseWindow(id) => CommandView::CloseWindow(*id),
            Command::SpawnWindow => CommandView::SpawnWindow,
            Command::SetWindowTitle(id, title) => CommandView::SetWindowTitle(*id, title@),
            Command::ToggleNavBarCondensed => CommandView::ToggleNavBarCondensed,
            Command::SetTheme(theme) => CommandView::SetTheme(*theme),
            Command::OpenUrl(url) => CommandView::OpenUrl(url@),
            Command::SetClipboard(text) => CommandView::SetClipboard(text@),
            Command::StoreConfig(entry) => CommandView::StoreConfig(entry@),
            Command::StoreKey(key) => CommandView::StoreKey(key@),
            Command::UpdateList(list) => CommandView::UpdateList(list@),
            Command::DeleteList(list) => CommandView::DeleteList(list@),
            Command::UpdateContent(message) => CommandView::UpdateContent(message@),
            Command::UpdateDetails(message) => CommandView::UpdateDetails(*message),
            Command::SetDueDate(date) => CommandView::SetDueDate(*date),
            Command::FetchLists => CommandView::FetchLists,
            Command::CreateList(name) => CommandView::CreateList(name@),
            Command::ExportTasks(list) => CommandView::ExportTasks(list@),
            Command::ReadCalendar => CommandView::ReadCalendar,
            Command::TestConnection { url, key, timeout_secs } => CommandView::TestConnection {
                url: url@,
                key: key@,
                timeout_secs: *timeout_secs,
            },
        }
    }
}

/// Work that is due: a command to perform, an event to handle, one output of a page to serve,
/// the active navigation item to remove, or a window to give a title.
#[derive(Debug)]
pub enum Job {
    Perform(Command),
    Handle(Event),
    ServeContent(content::Output),
    ServeDetails(details::Output),
    RemoveActiveItem,
    TitleWindow(u64, String),
}

#[verifier::ext_equal]
pub enum JobView {
    Perform(CommandView),
    Handle(EventView),
    ServeContent(content::OutputView),
    ServeDetails(details::OutputView),
    RemoveActiveItem,
    TitleWindow(u64, Seq<char>),
}

impl View for Job {
    type V = JobView;

    open spec fn view(&self) -> JobView {
        match self {
            Job::Perform(command) => JobView::Perform(command@),
            Job::Handle(event) => JobView::Handle(event@),
            Job::ServeContent(output) => JobView::ServeContent(output@),
            Job::ServeDetails(output) => JobView::ServeDetails(output@),
            Job::RemoveActiveItem => JobView::RemoveActiveItem,
            Job::TitleWindow(id, title) => JobView::TitleWindow(*id, title@),
        }
    }
}

} // verus!
