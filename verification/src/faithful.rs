//! The models say all that there is to say: no part of a value is left out, changed or taken for
//! another.

use vstd::prelude::*;

use crate::actions::{
    ApplicationAction, ApplicationActionView, ContextPage, Modifiers, NavMenuAction, TasksAction,
    TasksActionView,
};
use crate::app::{Flags, Tasks};
use crate::config::{AppTheme, ConfigEntry, ConfigEntryView, TasksConfig};
use crate::content;
use crate::content::SortType;
use crate::details;
use crate::details::{Calendar, Date, Details};
use crate::dialog::{DialogAction, DialogActionView, DialogPage, DialogPageView};
use crate::message::{
    Command, CommandView, Event, EventView, Job, JobView, Message, MessageView,
    PreferencesMessage, PreferencesMessageView,
};
use crate::nav::{Entity, NavItem, NavModel};
use crate::preferences::{Preferences, StoredKey, StoredKeyView, TestOutcome, TestOutcomeView};
use crate::runtime::Runtime;
use crate::storage::{List, Task};
use crate::ui::{
    About, Button, Caption, CaptionView, Choice, Drawer, DrawerBody, DrawerBodyView, Input, Label,
    NavMenuItem, Row, RowView, Section, Settings,
};
use crate::views;

verus! {

/// Whether a model holds the models of the members of a sequence, each in its place.
pub open spec fn each<T: View>(model: Seq<T::V>, members: Seq<T>) -> bool {
    &&& model.len() == members.len()
    &&& forall|i: int| 0 <= i < members.len() ==> #[trigger] model[i] == members[i]@
}

/// Whether a model holds the model of what an option holds.
pub open spec fn maybe<T: View>(model: Option<T::V>, value: Option<T>) -> bool {
    match value {
        Some(inner) => model == Some(inner@),
        None => model is None,
    }
}

/// The model of a sequence holds each member, and that of an option what it holds.
pub proof fn law_lifted<T: View>(members: Seq<T>, value: Option<T>)
    ensures
        each(views::seq_view(members), members),
        maybe(views::opt_view(value), value),
{
}

/// Lists and tasks.
pub proof fn law_records(list: List, task: Task)
    ensures
        list@.id == list.id,
        list@.name == list.name@,
        maybe(list@.icon, list.icon),
        list@.hide_completed == list.hide_completed,
        task@.id == task.id,
        task@.notes == task.notes@,
        task@.priority == task.priority,
{
}

/// The configuration and its entries.
pub proof fn law_configuration(config: TasksConfig, theme: AppTheme, value: bool, s: String)
    ensures
        config@.app_theme == config.app_theme,
        config@.hide_completed == config.hide_completed,
        config@.llm_provider == config.llm_provider@,
        config@.llm_model == config.llm_model@,
        config@.llm_api_base == config.llm_api_base@,
        ConfigEntry::AppTheme(theme)@ == ConfigEntryView::AppTheme(theme),
        ConfigEntry::HideCompleted(value)@ == ConfigEntryView::HideCompleted(value),
        ConfigEntry::LlmProvider(s)@ == ConfigEntryView::LlmProvider(s@),
        ConfigEntry::LlmModel(s)@ == ConfigEntryView::LlmModel(s@),
        ConfigEntry::LlmApiBase(s)@ == ConfigEntryView::LlmApiBase(s@),
{
}

/// The navigation bar.
pub proof fn law_navigation(item: NavItem, nav: NavModel)
    ensures
        item@.id == item.id,
        item@.text == item.text@,
        item@.icon == item.icon@,
        item@.list == item.list@,
        each(nav@.items, nav.items@),
        nav@.active == nav.active,
        nav@.next == nav.next,
{
}

/// The preferences, the key store and the outcome of a test.
pub proof fn law_service(p: Preferences, s: String, status: u16)
    ensures
        each(p@.provider_options, p.provider_options@),
        p@.selected_provider == p.selected_provider,
        each(p@.model_options, p.model_options@),
        p@.selected_model == p.selected_model,
        p@.api_base == p.api_base@,
        p@.api_key == p.api_key@,
        p@.testing == p.testing,
        maybe(p@.test_status, p.test_status),
        StoredKey::NoEntry@ == StoredKeyView::NoEntry,
        StoredKey::NoPassword@ == StoredKeyView::NoPassword,
        StoredKey::Password(s)@ == StoredKeyView::Password(s@),
        TestOutcome::ClientError(s)@ == TestOutcomeView::ClientError(s@),
        TestOutcome::RequestError(s)@ == TestOutcomeView::RequestError(s@),
        (TestOutcome::Response { status, body: s })@ == (TestOutcomeView::Response {
            status,
            body: s@,
        }),
{
}

/// The state of the application, and the application with its jobs.
pub proof fn law_state(t: Tasks, r: Runtime)
    ensures
        t@.nav_model == t.nav_model@,
        t@.details == t.details@,
        t@.config_handler == t.config_handler,
        t@.config == t.config@,
        each(t@.app_themes, t.app_themes@),
        t@.tasks_label == t.tasks_label@,
        t@.context_page == t.context_page,
        t@.show_context == t.show_context,
        each(t@.key_binds, t.key_binds@),
        t@.modifiers == t.modifiers,
        each(t@.dialog_pages, t.dialog_pages@),
        t@.dialog_text_input == t.dialog_text_input,
        t@.main_window == t.main_window,
        maybe(t@.window_title, t.window_title),
        t@.preferences == t.preferences@,
        r@.tasks == r.tasks@,
        each(r@.agenda, r.agenda@),
{
}

/// What the application is started with.
pub proof fn law_flags(f: Flags)
    ensures
        f@.config_handler == f.config_handler,
        f@.config == f.config@,
        f@.details == f.details@,
        f@.tasks_label == f.tasks_label@,
        f@.match_desktop_label == f.match_desktop_label@,
        f@.dark_label == f.dark_label@,
        f@.light_label == f.light_label@,
        f@.show_context == f.show_context,
        each(f@.key_binds, f.key_binds@),
        f@.dialog_text_input == f.dialog_text_input,
        f@.main_window == f.main_window,
        f@.stored_key == f.stored_key@,
        maybe(f@.env_key, f.env_key),
{
}

/// The content page: its messages and what it asks for.
pub proof fn law_content_page(
    task: Task,
    list: List,
    config: TasksConfig,
    open: bool,
    order: SortType,
    n: u64,
)
    ensures
        content::Message::RefreshTask(task)@ == content::MessageView::RefreshTask(task@),
        content::Message::SetList(Some(list))@ == content::MessageView::SetList(Some(list@)),
        content::Message::SetList(None)@ == content::MessageView::SetList(None),
        content::Message::SetConfig(config)@ == content::MessageView::SetConfig(config@),
        content::Message::ContextMenuOpen(open)@ == content::MessageView::ContextMenuOpen(open),
        content::Message::SetSort(order)@ == content::MessageView::SetSort(order),
        content::Message::Page(n)@ == content::MessageView::Page(n),
        content::Output::Focus(n)@ == content::OutputView::Focus(n),
        content::Output::OpenTaskDetails(task)@ == content::OutputView::OpenTaskDetails(task@),
        content::Output::ToggleHideCompleted(list)@ == content::OutputView::ToggleHideCompleted(
            list@,
        ),
{
}

/// The details page, and what it asks for.
pub proof fn law_details_page(d: Details, task: Task)
    ensures
        d@.task == d.task@,
        d@.text_editor_content == d.text_editor_content@,
        d@.priorities == d.priorities,
        d@.active_priority == d.active_priority,
        details::Output::OpenCalendarDialog@ == details::OutputView::OpenCalendarDialog,
        details::Output::RefreshTask(task)@ == details::OutputView::RefreshTask(task@),
{
}

/// The dialogs.
pub proof fn law_dialogs(
    entity: Option<Entity>,
    s: String,
    search: String,
    calendar: Calendar,
    page: DialogPage,
)
    ensures
        DialogPage::New(s)@ == DialogPageView::New(s@),
        DialogPage::Rename(entity, s)@ == DialogPageView::Rename(entity, s@),
        DialogPage::Delete(entity)@ == DialogPageView::Delete(entity),
        DialogPage::Icon(entity, s, search)@ == DialogPageView::Icon(entity, s@, search@),
        DialogPage::Calendar(calendar)@ == DialogPageView::Calendar(calendar),
        DialogPage::Export(s)@ == DialogPageView::Export(s@),
        DialogAction::Open(page)@ == DialogActionView::Open(page@),
        DialogAction::Update(page)@ == DialogActionView::Update(page@),
        DialogAction::Close@ == DialogActionView::Close,
        DialogAction::Complete@ == DialogActionView::Complete,
        DialogAction::Nothing@ == DialogActionView::Nothing,
{
}

/// The actions on the task lists and on the application as a whole.
pub proof fn law_actions(
    lists: Vec<List>,
    list: List,
    entity: Option<Entity>,
    i: usize,
    value: bool,
    pressed: Vec<bool>,
    modifiers: Modifiers,
    menu: NavMenuAction,
    page: ContextPage,
    action: DialogAction,
    n: u64,
)
    ensures
        TasksAction::FetchLists@ == TasksActionView::FetchLists,
        TasksAction::PopulateLists(lists)@ matches TasksActionView::PopulateLists(all) && each(
            all,
            lists@,
        ),
        TasksAction::AddList(list)@ == TasksActionView::AddList(list@),
        TasksAction::DeleteList(entity)@ == TasksActionView::DeleteList(entity),
        ApplicationAction::WindowClose@ == ApplicationActionView::WindowClose,
        ApplicationAction::WindowNew@ == ApplicationActionView::WindowNew,
        ApplicationAction::AppTheme(i)@ == ApplicationActionView::AppTheme(i as int),
        ApplicationAction::ToggleHideCompleted(value)@
            == ApplicationActionView::ToggleHideCompleted(value),
        ApplicationAction::SystemThemeModeChange@ == ApplicationActionView::SystemThemeModeChange,
        ApplicationAction::Key(pressed)@ == ApplicationActionView::Key(pressed@),
        ApplicationAction::Modifiers(modifiers)@ == ApplicationActionView::Modifiers(modifiers),
        ApplicationAction::NavMenuAction(menu)@ == ApplicationActionView::NavMenuAction(menu),
        ApplicationAction::ToggleContextPage(page)@ == ApplicationActionView::ToggleContextPage(
            page,
        ),
        ApplicationAction::ToggleContextDrawer@ == ApplicationActionView::ToggleContextDrawer,
        ApplicationAction::Dialog(action)@ == ApplicationActionView::Dialog(action@),
        ApplicationAction::Focus(n)@ == ApplicationActionView::Focus(n),
        ApplicationAction::SortByNameAsc@ == ApplicationActionView::SortByNameAsc,
        ApplicationAction::SortByNameDesc@ == ApplicationActionView::SortByNameDesc,
        ApplicationAction::SortByDateAsc@ == ApplicationActionView::SortByDateAsc,
        ApplicationAction::SortByDateDesc@ == ApplicationActionView::SortByDateDesc,
{
}

/// The messages.
pub proof fn law_messages(
    content: content::Message,
    details: details::Message,
    tasks: TasksAction,
    application: ApplicationAction,
    s: String,
    edit: PreferencesMessage,
    i: usize,
)
    ensures
        Message::Content(content)@ == MessageView::Content(content@),
        Message::Details(details)@ == MessageView::Details(details),
        Message::Tasks(tasks)@ == MessageView::Tasks(tasks@),
        Message::Application(application)@ == MessageView::Application(application@),
        Message::Open(s)@ == MessageView::Open(s@),
        Message::Preferences(edit)@ == MessageView::Preferences(edit@),
        PreferencesMessage::SetProvider(i)@ == PreferencesMessageView::SetProvider(i as int),
        PreferencesMessage::SetModelIdx(i)@ == PreferencesMessageView::SetModelIdx(i as int),
        PreferencesMessage::SetApiBase(s)@ == PreferencesMessageView::SetApiBase(s@),
        PreferencesMessage::SetApiKey(s)@ == PreferencesMessageView::SetApiKey(s@),
        PreferencesMessage::Save@ == PreferencesMessageView::Save,
        PreferencesMessage::Test@ == PreferencesMessageView::Test,
{
}

/// The events.
pub proof fn law_events(
    message: Message,
    id: Entity,
    wishes: Vec<content::Output>,
    others: Vec<details::Output>,
    details: Details,
    lists: Vec<List>,
    list: Option<List>,
    exported: Option<String>,
    calendar: Calendar,
    outcome: TestOutcome,
)
    ensures
        Event::Message(message)@ == EventView::Message(message@),
        Event::NavSelected(id)@ == EventView::NavSelected(id),
        Event::Escape@ == EventView::Escape,
        Event::ContentUpdated(wishes)@ matches EventView::ContentUpdated(all) && each(
            all,
            wishes@,
        ),
        Event::DetailsUpdated(details, others)@ matches EventView::DetailsUpdated(page, all)
            && page == details@ && each(all, others@),
        Event::DueDateSet(details)@ == EventView::DueDateSet(details@),
        Event::ListsFetched(Some(lists))@ matches EventView::ListsFetched(Some(all)) && each(
            all,
            lists@,
        ),
        Event::ListsFetched(None)@ == EventView::ListsFetched(None),
        Event::ListCreated(list)@ matches EventView::ListCreated(made) && maybe(made, list),
        Event::TasksExported(exported)@ matches EventView::TasksExported(made) && maybe(
            made,
            exported,
        ),
        Event::CalendarRead(calendar)@ == EventView::CalendarRead(calendar),
        Event::ConnectionTested(outcome)@ == EventView::ConnectionTested(outcome@),
{
}

/// The commands.
pub proof fn law_commands(
    n: u64,
    s: String,
    key: String,
    theme: AppTheme,
    entry: ConfigEntry,
    list: List,
    content: content::Message,
    details: details::Message,
    date: Date,
)
    ensures
        Command::Focus(n)@ == CommandView::Focus(n),
        Command::CloseWindow(n)@ == CommandView::CloseWindow(n),
        Command::SpawnWindow@ == CommandView::SpawnWindow,
        Command::SetWindowTitle(n, s)@ == CommandView::SetWindowTitle(n, s@),
        Command::ToggleNavBarCondensed@ == CommandView::ToggleNavBarCondensed,
        Command::SetTheme(theme)@ == CommandView::SetTheme(theme),
        Command::OpenUrl(s)@ == CommandView::OpenUrl(s@),
        Command::SetClipboard(s)@ == CommandView::SetClipboard(s@),
        Command::StoreConfig(entry)@ == CommandView::StoreConfig(entry@),
        Command::StoreKey(s)@ == CommandView::StoreKey(s@),
        Command::UpdateList(list)@ == CommandView::UpdateList(list@),
        Command::DeleteList(list)@ == CommandView::DeleteList(list@),
        Command::UpdateContent(content)@ == CommandView::UpdateContent(content@),
        Command::UpdateDetails(details)@ == CommandView::UpdateDetails(details),
        Command::SetDueDate(date)@ == CommandView::SetDueDate(date),
        Command::FetchLists@ == CommandView::FetchLists,
        Command::CreateList(s)@ == CommandView::CreateList(s@),
        Command::ExportTasks(list)@ == CommandView::ExportTasks(list@),
        Command::ReadCalendar@ == CommandView::ReadCalendar,
        (Command::TestConnection { url: s, key, timeout_secs: n })@ == (
        CommandView::TestConnection { url: s@, key: key@, timeout_secs: n }),
{
}

/// The jobs.
pub proof fn law_jobs(
    command: Command,
    event: Event,
    wish: content::Output,
    other: details::Output,
    n: u64,
    s: String,
)
    ensures
        Job::Perform(command)@ == JobView::Perform(command@),
        Job::Handle(event)@ == JobView::Handle(event@),
        Job::ServeContent(wish)@ == JobView::ServeContent(wish@),
        Job::ServeDetails(other)@ == JobView::ServeDetails(other@),
        Job::RemoveActiveItem@ == JobView::RemoveActiveItem,
        Job::TitleWindow(n, s)@ == JobView::TitleWindow(n, s@),
{
}

/// The controls of the settings.
pub proof fn law_rows(
    label: Label,
    s: String,
    caption: Caption,
    options: Vec<String>,
    i: usize,
    choice: Choice,
    value: String,
    width: Option<u16>,
    input: Input,
    buttons: Vec<Button>,
    spacing: u16,
    button: Button,
)
    ensures
        Caption::Localized(label)@ == CaptionView::Localized(label),
        Caption::Literal(s)@ == CaptionView::Literal(s@),
        (Row::Dropdown { caption, options, selected: i, choice })@ matches RowView::Dropdown {
            caption: a,
            options: all,
            selected: at,
            choice: c,
        } && a == caption@ && each(all, options@) && at == i && c == choice,
        (Row::TextInput { caption, placeholder: s, value, width, input })@ == (
        RowView::TextInput { caption: caption@, placeholder: s@, value: value@, width, input }),
        (Row::Buttons { buttons, spacing })@ matches RowView::Buttons { buttons: all, spacing: n }
            && each(all, buttons@) && n == spacing,
        Row::Text(s)@ == RowView::Text(s@),
        button@.text == button.text@,
        maybe(button@.on_press, button.on_press),
{
}

/// The pages of the context drawer, and the menu of a navigation item.
pub proof fn law_pages(
    section: Section,
    settings: Settings,
    about: About,
    details: Details,
    drawer: Drawer,
    item: NavMenuItem,
)
    ensures
        section@.title == section.title@,
        each(section@.rows, section.rows@),
        each(settings@.sections, settings.sections@),
        settings@.spacing == settings.spacing,
        about@.name == about.name,
        about@.icon == about.icon@,
        about@.version == about.version@,
        about@.author == about.author@,
        about@.license == about.license@,
        about@.links.len() == about.links@.len(),
        forall|i: int|
            0 <= i < about.links@.len() ==> #[trigger] about@.links[i] == (
                about.links@[i].0,
                about.links@[i].1@,
            ),
        about@.developers.len() == about.developers@.len(),
        forall|i: int|
            0 <= i < about.developers@.len() ==> #[trigger] about@.developers[i] == (
                about.developers@[i].0@,
                about.developers@[i].1@,
            ),
        DrawerBody::About(about)@ == DrawerBodyView::About(about@),
        DrawerBody::Settings(settings)@ == DrawerBodyView::Settings(settings@),
        DrawerBody::TaskDetails(details)@ == DrawerBodyView::TaskDetails(details@),
        drawer@.title == drawer.title,
        drawer@.body == drawer.body@,
        drawer@.on_close == drawer.on_close@,
        item@.label == item.label,
        item@.icon == item.icon@,
        item@.icon_size == item.icon_size,
        item@.action == item.action,
{
}

} // verus!
