//! The application as a state machine: what each event does to the state, and which jobs it
//! leaves, in order.

use vstd::prelude::*;

use crate::actions::{
    ApplicationActionView, ContextPage, Modifiers, NavMenuAction, TasksActionView,
};
use crate::config::{AppTheme, ConfigEntryView, ConfigView};
use crate::content;
use crate::content::SortType;
use crate::details;
use crate::details::DetailsView;
use crate::dialog::{DialogActionView, DialogPageView};
use crate::message::{CommandView, EventView, JobView, MessageView, PreferencesMessageView};
use crate::nav::{Entity, NavView};
use crate::preferences;
use crate::preferences::{PreferencesView, TEST_TIMEOUT_SECS};
use crate::storage::ListView;
use crate::text;

verus! {

/// The state of the application.
#[verifier::ext_equal]
pub struct TasksView {
    pub nav_model: NavView,
    pub details: DetailsView,
    pub config_handler: bool,
    pub config: ConfigView,
    pub app_themes: Seq<Seq<char>>,
    pub tasks_label: Seq<char>,
    pub context_page: ContextPage,
    pub show_context: bool,
    pub key_binds: Seq<MessageView>,
    pub modifiers: Modifiers,
    pub dialog_pages: Seq<DialogPageView>,
    pub dialog_text_input: u64,
    pub main_window: Option<u64>,
    pub window_title: Option<Seq<char>>,
    pub preferences: PreferencesView,
}

/// The state after an event, and the jobs that the event leaves.
pub type Step = (TasksView, Seq<JobView>);

/// The job of handing a message to the content page.
pub open spec fn to_content(message: content::MessageView) -> JobView {
    JobView::Perform(CommandView::UpdateContent(message))
}

/// The job of storing one entry of the configuration.
pub open spec fn store(entry: ConfigEntryView) -> JobView {
    JobView::Perform(CommandView::StoreConfig(entry))
}

/// The messages of those of the first `n` key bindings that match, in order.
pub open spec fn matched(binds: Seq<MessageView>, matches: Seq<bool>, n: int) -> Seq<JobView>
    decreases n,
{
    if n <= 0 {
        Seq::empty()
    } else if n <= matches.len() && matches[n - 1] {
        matched(binds, matches, n - 1).push(JobView::Handle(EventView::Message(binds[n - 1])))
    } else {
        matched(binds, matches, n - 1)
    }
}

/// The outputs of the content page, each to be served.
pub open spec fn content_jobs(outputs: Seq<content::OutputView>) -> Seq<JobView> {
    Seq::new(outputs.len(), |i: int| JobView::ServeContent(outputs[i]))
}

/// The outputs of the details page, each to be served.
pub open spec fn details_jobs(outputs: Seq<details::OutputView>) -> Seq<JobView> {
    Seq::new(outputs.len(), |i: int| JobView::ServeDetails(outputs[i]))
}

impl TasksView {
    /// The state is well formed: the navigation bar is, and the preferences offer what there is
    /// to choose from.
    pub open spec fn wf(self) -> bool {
        &&& self.nav_model.wf()
        &&& self.preferences.provider_options == preferences::provider_options()
        &&& self.preferences.model_options == preferences::model_options()
    }

    /// Whether names are left for `n` more navigation items.
    pub open spec fn has_room(self, n: int) -> bool {
        self.nav_model.next + n <= Entity::MAX
    }

    /// The messages that can be handled: there must be a dialog to replace, and names for new
    /// navigation items.
    pub open spec fn admits_message(self, message: MessageView) -> bool {
        match message {
            MessageView::Tasks(TasksActionView::PopulateLists(lists)) => self.has_room(
                lists.len() as int,
            ),
            MessageView::Tasks(TasksActionView::AddList(_)) => self.has_room(1),
            MessageView::Application(
                ApplicationActionView::Dialog(DialogActionView::Update(_)),
            ) => self.dialog_pages.len() > 0,
            _ => true,
        }
    }

    /// The events that can be handled.
    pub open spec fn admits(self, event: EventView) -> bool {
        match event {
            EventView::Message(message) => self.admits_message(message),
            EventView::ListsFetched(Some(lists)) => self.has_room(lists.len() as int),
            EventView::ListCreated(Some(_)) => self.has_room(1),
            _ => true,
        }
    }

    /// A navigation item is chosen: it becomes active, and its list is shown. The title of the
    /// main window follows.
    pub open spec fn select(self, id: Entity) -> Step {
        let after = TasksView { nav_model: self.nav_model.activated(id), ..self };
        match self.nav_model.data(id) {
            Some(list) => (
                TasksView {
                    window_title: if self.main_window is Some {
                        Some(list.name + " - "@ + self.tasks_label)
                    } else {
                        self.window_title
                    },
                    ..after
                },
                seq![to_content(content::MessageView::SetList(Some(list)))],
            ),
            None => (after, Seq::empty()),
        }
    }

    /// Items for new lists are appended to the navigation bar.
    pub open spec fn with_lists(self, lists: Seq<ListView>) -> TasksView {
        TasksView { nav_model: self.nav_model.with_new_items(lists), ..self }
    }

    /// Lists are shown in the navigation bar, and the first item is chosen.
    pub open spec fn populate(self, lists: Seq<ListView>) -> Step {
        let after = self.with_lists(lists);
        if after.nav_model.items.len() == 0 {
            (after, Seq::empty())
        } else {
            after.select(after.nav_model.items[0].id)
        }
    }

    /// A list is appended to the navigation bar and chosen.
    pub open spec fn add_list(self, list: ListView) -> Step {
        let after = self.with_lists(seq![list]);
        after.select(after.nav_model.items.last().id)
    }

    /// A list is deleted from the storage and taken off the content page. After that the
    /// active navigation item goes.
    pub open spec fn delete_list(self, entity: Option<Entity>) -> Step {
        (
            self,
            match self.nav_model.resolve(entity) {
                Some(list) => seq![
                    JobView::Perform(CommandView::DeleteList(list)),
                    to_content(content::MessageView::SetList(None)),
                    JobView::RemoveActiveItem,
                ],
                None => seq![JobView::RemoveActiveItem],
            },
        )
    }

    /// An action on the task lists.
    pub open spec fn update_tasks(self, action: TasksActionView) -> Step {
        match action {
            TasksActionView::FetchLists => (
                self,
                seq![JobView::Perform(CommandView::FetchLists)],
            ),
            TasksActionView::PopulateLists(lists) => self.populate(lists),
            TasksActionView::AddList(list) => self.add_list(list),
            TasksActionView::DeleteList(entity) => self.delete_list(entity),
        }
    }

    /// A dialog is put behind those that are open, and its input is focused. A rename dialog
    /// starts with the name of its list, and does not open where there is no list.
    pub open spec fn open_dialog(self, page: DialogPageView) -> Step {
        let dialog_pages = match page {
            DialogPageView::Rename(entity, _) => match self.nav_model.resolve(entity) {
                Some(list) => self.dialog_pages.push(DialogPageView::Rename(entity, list.name)),
                None => self.dialog_pages,
            },
            _ => self.dialog_pages.push(page),
        };
        (
            TasksView { dialog_pages, ..self },
            seq![JobView::Perform(CommandView::Focus(self.dialog_text_input))],
        )
    }

    /// A list changed: the storage and the content page get it.
    pub open spec fn list_changed(list: ListView) -> Seq<JobView> {
        seq![
            JobView::Perform(CommandView::UpdateList(list)),
            to_content(content::MessageView::SetList(Some(list))),
        ]
    }

    /// A list gets another name; the text of the active navigation item follows.
    pub open spec fn rename(self, entity: Option<Entity>, name: Seq<char>) -> Step {
        match self.nav_model.resolve(entity) {
            Some(list) => {
                let renamed = ListView { name, ..list };
                (
                    TasksView {
                        nav_model: self.nav_model.with_list(
                            self.nav_model.target(entity)->0,
                            renamed,
                        ).with_active_text(name),
                        ..self
                    },
                    TasksView::list_changed(renamed),
                )
            },
            None => (self, Seq::empty()),
        }
    }

    /// The active navigation item gets another icon and, where the dialog is about a list, the
    /// text of that list; the list behind the active item gets the icon.
    pub open spec fn set_icon(self, entity: Option<Entity>, icon: Seq<char>) -> Step {
        let nav_model = match self.nav_model.resolve(entity) {
            Some(list) => self.nav_model.with_active_text(list.name).with_active_icon(icon),
            None => self.nav_model,
        };
        match nav_model.resolve(None) {
            Some(list) => {
                let changed = ListView { icon: Some(icon), ..list };
                (
                    TasksView {
                        nav_model: nav_model.with_list(nav_model.active->0, changed),
                        ..self
                    },
                    TasksView::list_changed(changed),
                )
            },
            None => (TasksView { nav_model, ..self }, Seq::empty()),
        }
    }

    /// A dialog that was taken from the front is carried out.
    pub open spec fn complete(self, page: DialogPageView) -> Step {
        match page {
            DialogPageView::New(name) => (
                self,
                seq![JobView::Perform(CommandView::CreateList(name))],
            ),
            DialogPageView::Rename(entity, name) => self.rename(entity, name),
            DialogPageView::Delete(entity) => self.delete_list(entity),
            DialogPageView::Icon(entity, name, _) => self.set_icon(entity, name),
            DialogPageView::Calendar(calendar) => (
                self,
                seq![JobView::Perform(CommandView::SetDueDate(calendar.selected))],
            ),
            DialogPageView::Export(text) => (
                self,
                seq![JobView::Perform(CommandView::SetClipboard(text))],
            ),
        }
    }

    /// Without the foremost dialog, where there is one.
    pub open spec fn closed(self) -> TasksView {
        if self.dialog_pages.len() > 0 {
            TasksView { dialog_pages: self.dialog_pages.drop_first(), ..self }
        } else {
            self
        }
    }

    /// An action on the dialogs. The dialog that was opened first is the foremost.
    pub open spec fn update_dialog(self, action: DialogActionView) -> Step {
        match action {
            DialogActionView::Open(page) => self.open_dialog(page),
            DialogActionView::Update(page) => (
                TasksView { dialog_pages: self.dialog_pages.update(0, page), ..self },
                Seq::empty(),
            ),
            DialogActionView::Close => (self.closed(), Seq::empty()),
            DialogActionView::Complete => if self.dialog_pages.len() > 0 {
                self.closed().complete(self.dialog_pages[0])
            } else {
                (self, Seq::empty())
            },
            DialogActionView::Nothing => (self, Seq::empty()),
        }
    }

    /// The context drawer is opened or closed, and the content page hears of it.
    pub open spec fn with_drawer(self, page: ContextPage, open: bool) -> Step {
        (
            TasksView { context_page: page, show_context: open, ..self },
            seq![to_content(content::MessageView::ContextMenuOpen(open))],
        )
    }

    /// A page of the context drawer is asked for: it is closed if it was open, else shown.
    pub open spec fn toggle_page(self, page: ContextPage) -> Step {
        self.with_drawer(page, !(self.context_page == page && self.show_context))
    }

    /// An entry of the menu of a navigation item.
    pub open spec fn nav_menu(self, action: NavMenuAction) -> Step {
        match action {
            NavMenuAction::Rename(id) => self.open_dialog(
                DialogPageView::Rename(Some(id), Seq::empty()),
            ),
            NavMenuAction::SetIcon(id) => self.open_dialog(
                DialogPageView::Icon(Some(id), Seq::empty(), Seq::empty()),
            ),
            NavMenuAction::Export(id) => (
                self,
                match self.nav_model.data(id) {
                    Some(list) => seq![JobView::Perform(CommandView::ExportTasks(list))],
                    None => Seq::empty(),
                },
            ),
            NavMenuAction::Delete(id) => self.open_dialog(DialogPageView::Delete(Some(id))),
        }
    }

    /// The content page is told to sort.
    pub open spec fn sort(self, order: SortType) -> Step {
        (self, seq![to_content(content::MessageView::SetSort(order))])
    }

    /// An action on the application as a whole. A change of the configuration holds from now
    /// on, whether or not storing it succeeds; without a configuration to store to there is
    /// none.
    pub open spec fn update_app(self, action: ApplicationActionView) -> Step {
        match action {
            ApplicationActionView::WindowClose => (
                self,
                match self.main_window {
                    Some(id) => seq![JobView::Perform(CommandView::CloseWindow(id))],
                    None => Seq::empty(),
                },
            ),
            ApplicationActionView::WindowNew => (
                self,
                seq![JobView::Perform(CommandView::SpawnWindow)],
            ),
            ApplicationActionView::AppTheme(index) => if self.config_handler {
                let app_theme = AppTheme::at(index);
                (
                    TasksView { config: ConfigView { app_theme, ..self.config }, ..self },
                    seq![store(ConfigEntryView::AppTheme(app_theme))],
                )
            } else {
                (self, Seq::empty())
            },
            ApplicationActionView::ToggleHideCompleted(value) => if self.config_handler {
                let config = ConfigView { hide_completed: value, ..self.config };
                (
                    TasksView { config, ..self },
                    seq![
                        store(ConfigEntryView::HideCompleted(value)),
                        to_content(content::MessageView::SetConfig(config)),
                    ],
                )
            } else {
                (self, Seq::empty())
            },
            ApplicationActionView::SystemThemeModeChange => (
                self,
                seq![JobView::Perform(CommandView::SetTheme(self.config.app_theme))],
            ),
            ApplicationActionView::Key(matches) => (
                self,
                matched(self.key_binds, matches, self.key_binds.len() as int),
            ),
            ApplicationActionView::Modifiers(modifiers) => (
                TasksView { modifiers, ..self },
                Seq::empty(),
            ),
            ApplicationActionView::NavMenuAction(action) => self.nav_menu(action),
            ApplicationActionView::ToggleContextPage(page) => self.toggle_page(page),
            ApplicationActionView::ToggleContextDrawer => self.with_drawer(
                self.context_page,
                !self.show_context,
            ),
            ApplicationActionView::Dialog(action) => self.update_dialog(action),
            ApplicationActionView::Focus(id) => (
                self,
                seq![JobView::Perform(CommandView::Focus(id))],
            ),
            ApplicationActionView::SortByNameAsc => self.sort(SortType::NameAsc),
            ApplicationActionView::SortByNameDesc => self.sort(SortType::NameDesc),
            ApplicationActionView::SortByDateAsc => self.sort(SortType::DateAsc),
            ApplicationActionView::SortByDateDesc => self.sort(SortType::DateDesc),
        }
    }

    /// The configuration once the preferences are in it.
    pub open spec fn saved_config(self) -> ConfigView {
        ConfigView {
            llm_provider: self.preferences.provider(),
            llm_model: self.preferences.model(),
            llm_api_base: self.preferences.api_base,
            ..self.config
        }
    }

    /// The preferences are saved: to the configuration, where there is one, and the key,
    /// without white space at its ends, to the key store.
    pub open spec fn save(self) -> Step {
        let key = JobView::Perform(
            CommandView::StoreKey(text::trimmed(self.preferences.api_key)),
        );
        let preferences = PreferencesView {
            test_status: Some("Saved."@),
            ..self.preferences
        };
        if self.config_handler {
            (
                TasksView { config: self.saved_config(), preferences, ..self },
                seq![
                    store(ConfigEntryView::LlmProvider(self.preferences.provider())),
                    store(ConfigEntryView::LlmModel(self.preferences.model())),
                    store(ConfigEntryView::LlmApiBase(self.preferences.api_base)),
                    key,
                ],
            )
        } else {
            (TasksView { preferences, ..self }, seq![key])
        }
    }

    /// A connection test is begun, if there is a key to test with.
    pub open spec fn test(self) -> Step {
        let key = text::trimmed(self.preferences.api_key);
        if key.len() == 0 {
            (
                TasksView {
                    preferences: PreferencesView {
                        testing: false,
                        test_status: Some("Provide an API key to test."@),
                        ..self.preferences
                    },
                    ..self
                },
                Seq::empty(),
            )
        } else {
            (
                TasksView {
                    preferences: PreferencesView {
                        testing: true,
                        test_status: None,
                        ..self.preferences
                    },
                    ..self
                },
                seq![
                    JobView::Perform(
                        CommandView::TestConnection {
                            url: preferences::models_url(self.preferences.api_base),
                            key,
                            timeout_secs: TEST_TIMEOUT_SECS,
                        },
                    ),
                ],
            )
        }
    }

    /// A message from the preferences.
    pub open spec fn update_preferences(self, message: PreferencesMessageView) -> Step {
        match message {
            PreferencesMessageView::SetProvider(i) => (
                TasksView {
                    preferences: PreferencesView { selected_provider: i, ..self.preferences },
                    ..self
                },
                Seq::empty(),
            ),
            PreferencesMessageView::SetModelIdx(i) => (
                TasksView {
                    preferences: PreferencesView { selected_model: i, ..self.preferences },
                    ..self
                },
                Seq::empty(),
            ),
            PreferencesMessageView::SetApiBase(s) => (
                TasksView {
                    preferences: PreferencesView { api_base: s, ..self.preferences },
                    ..self
                },
                Seq::empty(),
            ),
            PreferencesMessageView::SetApiKey(s) => (
                TasksView {
                    preferences: PreferencesView { api_key: s, ..self.preferences },
                    ..self
                },
                Seq::empty(),
            ),
            PreferencesMessageView::Save => self.save(),
            PreferencesMessageView::Test => self.test(),
        }
    }

    /// A message. What is meant for a page goes there.
    pub open spec fn update(self, message: MessageView) -> Step {
        match message {
            MessageView::Open(url) => (
                self,
                seq![JobView::Perform(CommandView::OpenUrl(url))],
            ),
            MessageView::Content(message) => (self, seq![to_content(message)]),
            MessageView::Details(message) => (
                self,
                seq![JobView::Perform(CommandView::UpdateDetails(message))],
            ),
            MessageView::Tasks(action) => self.update_tasks(action),
            MessageView::Application(action) => self.update_app(action),
            MessageView::Preferences(message) => self.update_preferences(message),
        }
    }

    /// One output of the content page is served.
    pub open spec fn serve_content(self, output: content::OutputView) -> Step {
        match output {
            content::OutputView::Focus(id) => (
                self,
                seq![JobView::Perform(CommandView::Focus(id))],
            ),
            content::OutputView::OpenTaskDetails(task) => TasksView {
                details: self.details.showing(task),
                ..self
            }.toggle_page(ContextPage::TaskDetails),
            content::OutputView::ToggleHideCompleted(list) => match self.nav_model.resolve(None) {
                Some(shown) => (
                    TasksView {
                        nav_model: self.nav_model.with_list(
                            self.nav_model.active->0,
                            ListView { hide_completed: list.hide_completed, ..shown },
                        ),
                        ..self
                    },
                    seq![JobView::Perform(CommandView::UpdateList(list))],
                ),
                None => (self, Seq::empty()),
            },
        }
    }

    /// One output of the details page is served.
    pub open spec fn serve_details(self, output: details::OutputView) -> Step {
        (
            self,
            match output {
                details::OutputView::OpenCalendarDialog => seq![
                    JobView::Perform(CommandView::ReadCalendar),
                ],
                details::OutputView::RefreshTask(task) => seq![
                    to_content(content::MessageView::RefreshTask(task)),
                ],
            },
        )
    }

    /// The escape key closes the foremost dialog, or the context drawer if there is none.
    pub open spec fn escape(self) -> TasksView {
        if self.dialog_pages.len() > 0 {
            self.closed()
        } else {
            TasksView { show_context: false, ..self }
        }
    }

    /// A connection test has ended.
    pub open spec fn tested(self, outcome: preferences::TestOutcomeView) -> TasksView {
        TasksView {
            preferences: PreferencesView {
                testing: false,
                test_status: Some(preferences::outcome_text(outcome)),
                ..self.preferences
            },
            ..self
        }
    }

    /// An event. A command that failed leaves all as it was.
    pub open spec fn handle(self, event: EventView) -> Step {
        match event {
            EventView::Message(message) => self.update(message),
            EventView::NavSelected(id) => self.select(id),
            EventView::Escape => (self.escape(), Seq::empty()),
            EventView::ContentUpdated(outputs) => (self, content_jobs(outputs)),
            EventView::DetailsUpdated(details, outputs) => (
                TasksView { details, ..self },
                details_jobs(outputs),
            ),
            EventView::DueDateSet(details) => (TasksView { details, ..self }, Seq::empty()),
            EventView::ListsFetched(lists) => match lists {
                Some(lists) => self.populate(lists),
                None => (self, Seq::empty()),
            },
            EventView::ListCreated(list) => match list {
                Some(list) => self.add_list(list),
                None => (self, Seq::empty()),
            },
            EventView::TasksExported(text) => match text {
                Some(text) => self.open_dialog(DialogPageView::Export(text)),
                None => (self, Seq::empty()),
            },
            EventView::CalendarRead(calendar) => self.open_dialog(
                DialogPageView::Calendar(calendar),
            ),
            EventView::ConnectionTested(outcome) => (self.tested(outcome), Seq::empty()),
        }
    }
}

} // verus!
