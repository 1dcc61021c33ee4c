//! The application: its state, and what each event does to it.

use std::collections::VecDeque;

use vstd::prelude::*;

use crate::actions::{
    ApplicationAction, ApplicationActionView, ContextPage, Modifiers, NavMenuAction, TasksAction,
};
use crate::config::{AppTheme, ConfigEntry, ConfigView, TasksConfig};
use crate::content;
use crate::content::SortType;
use crate::details;
use crate::details::{Details, DetailsView};
use crate::dialog::{DialogAction, DialogPage};
use crate::laws;
use crate::message::{
    Command, CommandView, Event, EventView, Job, JobView, Message, MessageView, PreferencesMessage,
};
use crate::model;
use crate::model::TasksView;
use crate::nav::{Entity, NavModel, NavView};
use crate::preferences;
use crate::preferences::{
    Preferences, PreferencesView, StoredKey, StoredKeyView, TestOutcome, TEST_TIMEOUT_SECS,
};
use crate::storage::List;
use crate::views;

verus! {

/// The state of the application.
///
/// `config_handler` says whether there is a configuration to store to, `tasks_label` is the
/// name of the application in the language of the user, `key_binds` holds the message of each
/// key binding, `dialog_text_input` names the input of the dialogs, and `window_title` is the
/// title that the main window was last given.
#[derive(Debug)]
pub struct Tasks {
    pub nav_model: NavModel,
    pub details: Details,
    pub config_handler: bool,
    pub config: TasksConfig,
    pub app_themes: Vec<String>,
    pub tasks_label: String,
    pub context_page: ContextPage,
    pub show_context: bool,
    pub key_binds: Vec<Message>,
    pub modifiers: Modifiers,
    pub dialog_pages: VecDeque<DialogPage>,
    pub dialog_text_input: u64,
    pub main_window: Option<u64>,
    pub window_title: Option<String>,
    pub preferences: Preferences,
}

impl View for Tasks {
    type V = TasksView;

    open spec fn view(&self) -> TasksView {
        TasksView {
            nav_model: self.nav_model@,
            details: self.details@,
            config_handler: self.config_handler,
            config: self.config@,
            app_themes: views::seq_view(self.app_themes@),
            tasks_label: self.tasks_label@,
            context_page: self.context_page,
            show_context: self.show_context,
            key_binds: views::seq_view(self.key_binds@),
            modifiers: self.modifiers,
            dialog_pages: views::seq_view(self.dialog_pages@),
            dialog_text_input: self.dialog_text_input,
            main_window: self.main_window,
            window_title: views::opt_view(self.window_title),
            preferences: self.preferences@,
        }
    }
}

/// What the application is started with: the stored configuration, whether it can be stored
/// to, the details page, texts in the language of the user, the key bindings, the windowing
/// side's names for the dialog input and the main window, whether the context drawer is open,
/// and the key of the language model service as the key store and the environment know it.
#[derive(Debug)]
pub struct Flags {
    pub config_handler: bool,
    pub config: TasksConfig,
    pub details: Details,
    pub tasks_label: String,
    pub match_desktop_label: String,
    pub dark_label: String,
    pub light_label: String,
    pub show_context: bool,
    pub key_binds: Vec<Message>,
    pub dialog_text_input: u64,
    pub main_window: Option<u64>,
    pub stored_key: StoredKey,
    pub env_key: Option<String>,
}

#[verifier::ext_equal]
pub struct FlagsView {
    pub config_handler: bool,
    pub config: ConfigView,
    pub details: DetailsView,
    pub tasks_label: Seq<char>,
    pub match_desktop_label: Seq<char>,
    pub dark_label: Seq<char>,
    pub light_label: Seq<char>,
    pub show_context: bool,
    pub key_binds: Seq<MessageView>,
    pub dialog_text_input: u64,
    pub main_window: Option<u64>,
    pub stored_key: StoredKeyView,
    pub env_key: Option<Seq<char>>,
}

impl View for Flags {
    type V = FlagsView;

    open spec fn view(&self) -> FlagsView {
        FlagsView {
            config_handler: self.config_handler,
            config: self.config@,
            details: self.details@,
            tasks_label: self.tasks_label@,
            match_desktop_label: self.match_desktop_label@,
            dark_label: self.dark_label@,
            light_label: self.light_label@,
            show_context: self.show_context,
            key_binds: views::seq_view(self.key_binds@),
            dialog_text_input: self.dialog_text_input,
            main_window: self.main_window,
            stored_key: self.stored_key@,
            env_key: views::opt_view(self.env_key),
        }
    }
}

impl FlagsView {
    /// The state at the start.
    pub open spec fn tasks(self) -> TasksView {
        TasksView {
            nav_model: NavView { items: Seq::empty(), active: None, next: 0 },
            details: self.details,
            config_handler: self.config_handler,
            config: self.config,
            app_themes: seq![self.match_desktop_label, self.dark_label, self.light_label],
            tasks_label: self.tasks_label,
            context_page: ContextPage::Settings,
            show_context: self.show_context,
            key_binds: self.key_binds,
            modifiers: Modifiers { bits: 0 },
            dialog_pages: Seq::empty(),
            dialog_text_input: self.dialog_text_input,
            main_window: self.main_window,
            window_title: None,
            preferences: PreferencesView::initial(self.config, self.stored_key, self.env_key),
        }
    }

    /// The jobs at the start: the lists are fetched, the main window gets its title, and the
    /// navigation bar is adapted to the width of the window.
    pub open spec fn jobs(self) -> Seq<JobView> {
        let fetch = JobView::Perform(CommandView::FetchLists);
        let adapt = JobView::Perform(CommandView::ToggleNavBarCondensed);
        match self.main_window {
            Some(id) => seq![fetch, JobView::TitleWindow(id, self.tasks_label), adapt],
            None => seq![fetch, adapt],
        }
    }
}

broadcast use crate::views::group_seq_view;

/// Appends the job of handing a message to the content page.
fn tell_content(tasks: &mut Vec<Job>, message: content::Message)
    ensures
        views::seq_view(final(tasks)@) == views::seq_view(old(tasks)@).push(
            model::to_content(message@),
        ),
{
    tasks.push(Job::Perform(Command::UpdateContent(message)));
}

impl Tasks {
    /// The application at its start, and the jobs that it starts with.
    pub fn init(flags: Flags) -> (r: (Tasks, Vec<Job>))
        ensures
            r.0@ == flags@.tasks(),
            r.0@.wf(),
            views::seq_view(r.1@) == flags@.jobs(),
    {
        let ghost given = flags@;
        let preferences: Preferences = Preferences::load(
            &flags.config,
            flags.stored_key,
            flags.env_key,
        );
        let mut app_themes: Vec<String> = Vec::new();
        app_themes.push(flags.match_desktop_label);
        app_themes.push(flags.dark_label);
        app_themes.push(flags.light_label);
        let mut app = Tasks {
            nav_model: NavModel::new(),
            details: flags.details,
            config_handler: flags.config_handler,
            config: flags.config,
            app_themes,
            tasks_label: flags.tasks_label,
            context_page: ContextPage::Settings,
            show_context: flags.show_context,
            key_binds: flags.key_binds,
            modifiers: Modifiers { bits: 0 },
            dialog_pages: VecDeque::new(),
            dialog_text_input: flags.dialog_text_input,
            main_window: flags.main_window,
            window_title: None,
            preferences,
        };
        assert(app@.app_themes =~= given.tasks().app_themes);
        assert(app@.dialog_pages =~= given.tasks().dialog_pages);
        let mut tasks: Vec<Job> = app.update(Message::Tasks(TasksAction::FetchLists));
        if let Some(id) = app.main_window {
            tasks.push(Job::TitleWindow(id, app.tasks_label.clone()));
        }
        tasks.push(Job::Perform(Command::ToggleNavBarCondensed));
        (app, tasks)
    }

    /// Appends an item for a list to the navigation bar, and returns the name of the item.
    pub fn create_nav_item(&mut self, list: &List) -> (id: Entity)
        requires
            old(self)@.has_room(1),
        ensures
            id == old(self)@.nav_model.next,
            final(self)@ == old(self)@.with_lists(seq![list@]),
            old(self)@.wf() ==> final(self)@.nav_model.data(id) == Some(list@),
            old(self)@.wf() ==> final(self)@.wf(),
    {
        let id: Entity = self.nav_model.insert(list.clone());
        proof {
            if old(self)@.wf() {
                self@.nav_model.lemma_found(old(self)@.nav_model.items.len() as int);
            }
        }
        id
    }

    /// A navigation item is chosen: it becomes active and its list is shown.
    pub fn on_nav_select(&mut self, entity: Entity) -> (tasks: Vec<Job>)
        ensures
            final(self)@ == old(self)@.select(entity).0,
            views::seq_view(tasks@) == old(self)@.select(entity).1,
            old(self)@.wf() ==> final(self)@.wf(),
    {
        let mut tasks: Vec<Job> = Vec::new();
        let location: Option<List> = self.nav_model.data(entity);
        self.nav_model.activate(entity);
        if let Some(list) = location {
            if self.main_window.is_some() {
                let mut title: String = list.name.clone();
                title.append(" - ");
                title.append(self.tasks_label.as_str());
                self.window_title = Some(title);
            }
            tell_content(&mut tasks, content::Message::SetList(Some(list)));
        }
        proof {
            laws::lemma_select_wf(old(self)@, entity);
        }
        tasks
    }

    /// Shows lists in the navigation bar and chooses the first item.
    fn populate(&mut self, tasks: &mut Vec<Job>, lists: Vec<List>)
        requires
            old(self)@.has_room(lists@.len() as int),
        ensures
            final(self)@ == old(self)@.populate(views::seq_view(lists@)).0,
            views::seq_view(final(tasks)@) == views::seq_view(old(tasks)@) + old(self)@.populate(
                views::seq_view(lists@),
            ).1,
    {
        let ghost before = self@;
        let ghost all = views::seq_view(lists@);
        let mut i: usize = 0;
        assert(self@ =~= before.with_lists(all.take(0)));
        while i < lists.len()
            invariant
                i <= lists.len(),
                all == views::seq_view(lists@),
                before.has_room(all.len() as int),
                self@ == before.with_lists(all.take(i as int)),
            decreases lists.len() - i,
        {
            assert(all[i as int] == lists@[i as int]@);
            self.create_nav_item(&lists[i]);
            i = i + 1;
            assert(self@.nav_model.items =~= before.with_lists(all.take(i as int)).nav_model.items);
        }
        assert(all.take(all.len() as int) =~= all);
        if self.nav_model.items.len() > 0 {
            assert(self@.nav_model.items[0] == self.nav_model.items@[0]@);
            let entity: Entity = self.nav_model.items[0].id;
            let mut chosen: Vec<Job> = self.on_nav_select(entity);
            tasks.append(&mut chosen);
        }
    }

    /// Appends a list to the navigation bar and chooses it.
    fn add_list(&mut self, tasks: &mut Vec<Job>, list: List)
        requires
            old(self)@.has_room(1),
        ensures
            final(self)@ == old(self)@.add_list(list@).0,
            views::seq_view(final(tasks)@) == views::seq_view(old(tasks)@) + old(self)@.add_list(
                list@,
            ).1,
    {
        self.create_nav_item(&list);
        assert(self@.nav_model.items.len() > 0);
        let last: usize = self.nav_model.items.len() - 1;
        assert(self@.nav_model.items.last() == self.nav_model.items@[last as int]@);
        let entity: Entity = self.nav_model.items[last].id;
        let mut chosen: Vec<Job> = self.on_nav_select(entity);
        tasks.append(&mut chosen);
    }

    /// Deletes a list from the storage and takes it off the content page; after that the
    /// active navigation item goes.
    fn delete_list(&mut self, tasks: &mut Vec<Job>, entity: Option<Entity>)
        ensures
            final(self)@ == old(self)@.delete_list(entity).0,
            views::seq_view(final(tasks)@) == views::seq_view(old(tasks)@)
                + old(self)@.delete_list(entity).1,
    {
        if let Some(list) = self.nav_model.resolve(entity) {
            tasks.push(Job::Perform(Command::DeleteList(list)));
            tell_content(tasks, content::Message::SetList(None));
        }
        tasks.push(Job::RemoveActiveItem);
    }

    /// Carries out an action on the task lists.
    pub fn update_tasks(&mut self, tasks: &mut Vec<Job>, tasks_action: TasksAction)
        requires
            old(self)@.admits_message(MessageView::Tasks(tasks_action@)),
        ensures
            final(self)@ == old(self)@.update_tasks(tasks_action@).0,
            views::seq_view(final(tasks)@) == views::seq_view(old(tasks)@)
                + old(self)@.update_tasks(tasks_action@).1,
            old(self)@.wf() ==> final(self)@.wf(),
    {
        proof {
            if self@.wf() {
                laws::lemma_handle_wf(
                    self@,
                    EventView::Message(MessageView::Tasks(tasks_action@)),
                );
            }
        }
        match tasks_action {
            TasksAction::FetchLists => {
                tasks.push(Job::Perform(Command::FetchLists));
            },
            TasksAction::PopulateLists(lists) => {
                self.populate(tasks, lists);
            },
            TasksAction::AddList(list) => {
                self.add_list(tasks, list);
            },
            TasksAction::DeleteList(entity) => {
                self.delete_list(tasks, entity);
            },
        }
    }

    /// Removes the active navigation item.
    pub fn remove_active_item(&mut self)
        ensures
            final(self)@ == (TasksView {
                nav_model: old(self)@.nav_model.without_active(),
                ..old(self)@
            }),
            old(self)@.wf() ==> final(self)@.wf(),
    {
        self.nav_model.remove_active();
    }

    /// Opens a dialog behind those that are open, and focuses its input.
    fn open_dialog(&mut self, tasks: &mut Vec<Job>, page: DialogPage)
        ensures
            final(self)@ == old(self)@.open_dialog(page@).0,
            views::seq_view(final(tasks)@) == views::seq_view(old(tasks)@)
                + old(self)@.open_dialog(page@).1,
    {
        match page {
            DialogPage::Rename(entity, _) => {
                if let Some(list) = self.nav_model.resolve(entity) {
                    self.dialog_pages.push_back(DialogPage::Rename(entity, list.name));
                }
            },
            page => {
                self.dialog_pages.push_back(page);
            },
        }
        tasks.push(Job::Perform(Command::Focus(self.dialog_text_input)));
    }

    /// Hands a changed list to the storage and to the content page.
    fn list_changed(tasks: &mut Vec<Job>, list: List)
        ensures
            views::seq_view(final(tasks)@) == views::seq_view(old(tasks)@)
                + TasksView::list_changed(list@),
    {
        tasks.push(Job::Perform(Command::UpdateList(list.clone())));
        tell_content(tasks, content::Message::SetList(Some(list)));
    }

    /// Gives a list another name.
    fn rename(&mut self, tasks: &mut Vec<Job>, entity: Option<Entity>, name: String)
        ensures
            final(self)@ == old(self)@.rename(entity, name@).0,
            views::seq_view(final(tasks)@) == views::seq_view(old(tasks)@) + old(self)@.rename(
                entity,
                name@,
            ).1,
    {
        if let Some(mut list) = self.nav_model.resolve(entity) {
            list.name = name.clone();
            let target: Option<Entity> = match entity {
                Some(id) => Some(id),
                None => self.nav_model.active,
            };
            if let Some(id) = target {
                self.nav_model.set_list(id, list.clone());
            }
            self.nav_model.set_active_text(name);
            Self::list_changed(tasks, list);
        }
    }

    /// Gives the active navigation item and its list another icon.
    fn set_icon(&mut self, tasks: &mut Vec<Job>, entity: Option<Entity>, icon: String)
        ensures
            final(self)@ == old(self)@.set_icon(entity, icon@).0,
            views::seq_view(final(tasks)@) == views::seq_view(old(tasks)@) + old(self)@.set_icon(
                entity,
                icon@,
            ).1,
    {
        if let Some(list) = self.nav_model.resolve(entity) {
            self.nav_model.set_active_text(list.name);
            self.nav_model.set_active_icon(icon.clone());
        }
        if let Some(mut list) = self.nav_model.resolve(None) {
            list.icon = Some(icon);
            if let Some(id) = self.nav_model.active {
                self.nav_model.set_list(id, list.clone());
            }
            Self::list_changed(tasks, list);
        }
    }

    /// Carries out a dialog that was taken from the front.
    fn complete(&mut self, tasks: &mut Vec<Job>, page: DialogPage)
        ensures
            final(self)@ == old(self)@.complete(page@).0,
            views::seq_view(final(tasks)@) == views::seq_view(old(tasks)@) + old(self)@.complete(
                page@,
            ).1,
    {
        match page {
            DialogPage::New(name) => {
                tasks.push(Job::Perform(Command::CreateList(name)));
            },
            DialogPage::Rename(entity, name) => {
                self.rename(tasks, entity, name);
            },
            DialogPage::Delete(entity) => {
                self.delete_list(tasks, entity);
            },
            DialogPage::Icon(entity, name, _) => {
                self.set_icon(tasks, entity, name);
            },
            DialogPage::Calendar(calendar) => {
                tasks.push(Job::Perform(Command::SetDueDate(calendar.selected)));
            },
            DialogPage::Export(content) => {
                tasks.push(Job::Perform(Command::SetClipboard(content)));
            },
        }
    }

    /// Carries out an action on the dialogs.
    pub fn update_dialog(&mut self, tasks: &mut Vec<Job>, dialog_action: DialogAction)
        requires
            dialog_action is Update ==> old(self)@.dialog_pages.len() > 0,
        ensures
            final(self)@ == old(self)@.update_dialog(dialog_action@).0,
            views::seq_view(final(tasks)@) == views::seq_view(old(tasks)@)
                + old(self)@.update_dialog(dialog_action@).1,
            old(self)@.wf() ==> final(self)@.wf(),
    {
        proof {
            if self@.wf() {
                laws::lemma_handle_wf(
                    self@,
                    EventView::Message(
                        MessageView::Application(
                            ApplicationActionView::Dialog(dialog_action@),
                        ),
                    ),
                );
            }
        }
        match dialog_action {
            DialogAction::Open(page) => {
                self.open_dialog(tasks, page);
            },
            DialogAction::Update(page) => {
                let ghost before = self@.dialog_pages;
                self.dialog_pages.pop_front();
                self.dialog_pages.push_front(page);
                assert(self@.dialog_pages =~= before.update(0, page@));
            },
            DialogAction::Close => {
                self.dialog_pages.pop_front();
            },
            DialogAction::Complete => {
                let ghost before = self@;
                if let Some(page) = self.dialog_pages.pop_front() {
                    assert(self@ =~= before.closed());
                    self.complete(tasks, page);
                }
            },
            DialogAction::Nothing => {},
        }
    }

    /// Opens or closes the context drawer, and tells the content page.
    fn set_drawer(&mut self, tasks: &mut Vec<Job>, page: ContextPage, open: bool)
        ensures
            final(self)@ == old(self)@.with_drawer(page, open).0,
            views::seq_view(final(tasks)@) == views::seq_view(old(tasks)@)
                + old(self)@.with_drawer(page, open).1,
    {
        self.context_page = page;
        self.show_context = open;
        tell_content(tasks, content::Message::ContextMenuOpen(open));
    }

    /// Closes a page of the context drawer if it was open, else shows it.
    fn toggle_page(&mut self, tasks: &mut Vec<Job>, page: ContextPage)
        ensures
            final(self)@ == old(self)@.toggle_page(page).0,
            views::seq_view(final(tasks)@) == views::seq_view(old(tasks)@)
                + old(self)@.toggle_page(page).1,
    {
        let open: bool = if self.context_page == page {
            !self.show_context
        } else {
            true
        };
        self.set_drawer(tasks, page, open);
    }

    /// Carries out an entry of the menu of a navigation item.
    fn nav_menu(&mut self, tasks: &mut Vec<Job>, action: NavMenuAction)
        ensures
            final(self)@ == old(self)@.nav_menu(action).0,
            views::seq_view(final(tasks)@) == views::seq_view(old(tasks)@) + old(self)@.nav_menu(
                action,
            ).1,
    {
        match action {
            NavMenuAction::Rename(entity) => {
                self.open_dialog(tasks, DialogPage::Rename(Some(entity), String::new()));
            },
            NavMenuAction::SetIcon(entity) => {
                self.open_dialog(
                    tasks,
                    DialogPage::Icon(Some(entity), String::new(), String::new()),
                );
            },
            NavMenuAction::Export(entity) => {
                if let Some(list) = self.nav_model.data(entity) {
                    tasks.push(Job::Perform(Command::ExportTasks(list)));
                }
            },
            NavMenuAction::Delete(entity) => {
                self.open_dialog(tasks, DialogPage::Delete(Some(entity)));
            },
        }
    }

    /// Appends the messages of the key bindings that match.
    fn press_key(&self, tasks: &mut Vec<Job>, matches: &Vec<bool>)
        ensures
            views::seq_view(final(tasks)@) == views::seq_view(old(tasks)@) + model::matched(
                self@.key_binds,
                matches@,
                self@.key_binds.len() as int,
            ),
    {
        let ghost before = views::seq_view(tasks@);
        let mut i: usize = 0;
        while i < self.key_binds.len()
            invariant
                i <= self.key_binds.len(),
                views::seq_view(tasks@) == before + model::matched(
                    self@.key_binds,
                    matches@,
                    i as int,
                ),
            decreases self.key_binds.len() - i,
        {
            assert(self@.key_binds[i as int] == self.key_binds@[i as int]@);
            if i < matches.len() && matches[i] {
                tasks.push(Job::Handle(Event::Message(self.key_binds[i].clone())));
            }
            i = i + 1;
        }
    }

    /// Carries out an action on the application as a whole.
    pub fn update_app(&mut self, tasks: &mut Vec<Job>, application_action: ApplicationAction)
        requires
            old(self)@.admits_message(
                MessageView::Application(application_action@),
            ),
        ensures
            final(self)@ == old(self)@.update_app(application_action@).0,
            views::seq_view(final(tasks)@) == views::seq_view(old(tasks)@)
                + old(self)@.update_app(application_action@).1,
            old(self)@.wf() ==> final(self)@.wf(),
    {
        proof {
            if self@.wf() {
                laws::lemma_handle_wf(
                    self@,
                    EventView::Message(MessageView::Application(application_action@)),
                );
            }
        }
        match application_action {
            ApplicationAction::WindowClose => {
                if let Some(window_id) = self.main_window {
                    tasks.push(Job::Perform(Command::CloseWindow(window_id)));
                }
            },
            ApplicationAction::WindowNew => {
                tasks.push(Job::Perform(Command::SpawnWindow));
            },
            ApplicationAction::AppTheme(theme) => {
                if self.config_handler {
                    let theme: AppTheme = AppTheme::from_index(theme);
                    self.config.app_theme = theme;
                    tasks.push(Job::Perform(Command::StoreConfig(ConfigEntry::AppTheme(theme))));
                }
            },
            ApplicationAction::ToggleHideCompleted(value) => {
                if self.config_handler {
                    self.config.hide_completed = value;
                    tasks.push(
                        Job::Perform(Command::StoreConfig(ConfigEntry::HideCompleted(value))),
                    );
                    tell_content(tasks, content::Message::SetConfig(self.config.clone()));
                }
            },
            ApplicationAction::SystemThemeModeChange => {
                tasks.push(Job::Perform(Command::SetTheme(self.config.app_theme)));
            },
            ApplicationAction::Key(matches) => {
                self.press_key(tasks, &matches);
            },
            ApplicationAction::Modifiers(modifiers) => {
                self.modifiers = modifiers;
            },
            ApplicationAction::NavMenuAction(nav_menu_action) => {
                self.nav_menu(tasks, nav_menu_action);
            },
            ApplicationAction::ToggleContextPage(context_page) => {
                self.toggle_page(tasks, context_page);
            },
            ApplicationAction::ToggleContextDrawer => {
                let page: ContextPage = self.context_page;
                let open: bool = !self.show_context;
                self.set_drawer(tasks, page, open);
            },
            ApplicationAction::Dialog(dialog_action) => {
                self.update_dialog(tasks, dialog_action);
            },
            ApplicationAction::Focus(id) => {
                tasks.push(Job::Perform(Command::Focus(id)));
            },
            ApplicationAction::SortByNameAsc => {
                tell_content(tasks, content::Message::SetSort(SortType::NameAsc));
            },
            ApplicationAction::SortByNameDesc => {
                tell_content(tasks, content::Message::SetSort(SortType::NameDesc));
            },
            ApplicationAction::SortByDateAsc => {
                tell_content(tasks, content::Message::SetSort(SortType::DateAsc));
            },
            ApplicationAction::SortByDateDesc => {
                tell_content(tasks, content::Message::SetSort(SortType::DateDesc));
            },
        }
    }

    /// Saves the preferences.
    fn save(&mut self, tasks: &mut Vec<Job>)
        ensures
            final(self)@ == old(self)@.save().0,
            views::seq_view(final(tasks)@) == views::seq_view(old(tasks)@) + old(self)@.save().1,
    {
        if self.config_handler {
            let provider: String = self.preferences.provider();
            let model: String = self.preferences.model();
            let base: String = self.preferences.api_base.clone();
            self.config.llm_provider = provider.clone();
            self.config.llm_model = model.clone();
            self.config.llm_api_base = base.clone();
            tasks.push(Job::Perform(Command::StoreConfig(ConfigEntry::LlmProvider(provider))));
            tasks.push(Job::Perform(Command::StoreConfig(ConfigEntry::LlmModel(model))));
            tasks.push(Job::Perform(Command::StoreConfig(ConfigEntry::LlmApiBase(base))));
        }
        tasks.push(Job::Perform(Command::StoreKey(self.preferences.trimmed_key())));
        self.preferences.test_status = Some("Saved.".to_owned());
    }

    /// Begins a connection test, if there is a key to test with.
    fn test(&mut self, tasks: &mut Vec<Job>)
        ensures
            final(self)@ == old(self)@.test().0,
            views::seq_view(final(tasks)@) == views::seq_view(old(tasks)@) + old(self)@.test().1,
    {
        let key: String = self.preferences.trimmed_key();
        if key.as_str().is_empty() {
            self.preferences.testing = false;
            self.preferences.test_status = Some("Provide an API key to test.".to_owned());
        } else {
            self.preferences.testing = true;
            self.preferences.test_status = None;
            tasks.push(
                Job::Perform(
                    Command::TestConnection {
                        url: self.preferences.models_url(),
                        key,
                        timeout_secs: TEST_TIMEOUT_SECS,
                    },
                ),
            );
        }
    }

    /// Carries out a message from the preferences.
    pub fn update_preferences(&mut self, tasks: &mut Vec<Job>, message: PreferencesMessage)
        ensures
            final(self)@ == old(self)@.update_preferences(message@).0,
            views::seq_view(final(tasks)@) == views::seq_view(old(tasks)@)
                + old(self)@.update_preferences(message@).1,
            old(self)@.wf() ==> final(self)@.wf(),
    {
        match message {
            PreferencesMessage::SetProvider(idx) => {
                self.preferences.selected_provider = idx;
            },
            PreferencesMessage::SetModelIdx(idx) => {
                self.preferences.selected_model = idx;
            },
            PreferencesMessage::SetApiBase(s) => {
                self.preferences.api_base = s;
            },
            PreferencesMessage::SetApiKey(s) => {
                self.preferences.api_key = s;
            },
            PreferencesMessage::Save => {
                self.save(tasks);
            },
            PreferencesMessage::Test => {
                self.test(tasks);
            },
        }
    }

    /// Whether a message can be handled.
    pub fn admits_message(&self, message: &Message) -> (r: bool)
        ensures
            r == self@.admits_message(message@),
    {
        match message {
            Message::Tasks(TasksAction::PopulateLists(lists)) => self.has_room(lists.len()),
            Message::Tasks(TasksAction::AddList(_)) => self.has_room(1),
            Message::Application(ApplicationAction::Dialog(DialogAction::Update(_))) => {
                self.dialog_pages.len() > 0
            },
            _ => true,
        }
    }

    /// Whether names are left for `n` more navigation items.
    pub fn has_room(&self, n: usize) -> (r: bool)
        ensures
            r == self@.has_room(n as int),
    {
        n as u64 <= Entity::MAX - self.nav_model.next
    }

    /// Carries out a message.
    pub fn update(&mut self, message: Message) -> (tasks: Vec<Job>)
        requires
            old(self)@.admits_message(message@),
        ensures
            final(self)@ == old(self)@.update(message@).0,
            views::seq_view(tasks@) == old(self)@.update(message@).1,
            old(self)@.wf() ==> final(self)@.wf(),
    {
        let mut tasks: Vec<Job> = Vec::new();
        match message {
            Message::Open(url) => {
                tasks.push(Job::Perform(Command::OpenUrl(url)));
            },
            Message::Content(message) => {
                tell_content(&mut tasks, message);
            },
            Message::Details(message) => {
                tasks.push(Job::Perform(Command::UpdateDetails(message)));
            },
            Message::Tasks(tasks_action) => {
                self.update_tasks(&mut tasks, tasks_action);
            },
            Message::Application(application_action) => {
                self.update_app(&mut tasks, application_action);
            },
            Message::Preferences(message) => {
                self.update_preferences(&mut tasks, message);
            },
        }
        tasks
    }

    /// Queues the outputs of the content page, to be served one after the other.
    pub fn update_content(&mut self, tasks: &mut Vec<Job>, outputs: Vec<content::Output>)
        ensures
            final(self)@ == old(self)@,
            views::seq_view(final(tasks)@) == views::seq_view(old(tasks)@)
                + model::content_jobs(views::seq_view(outputs@)),
    {
        let ghost before = views::seq_view(tasks@);
        let ghost all = views::seq_view(outputs@);
        for output in iter: outputs
            invariant
                iter.seq() == outputs@,
                all == views::seq_view(outputs@),
                views::seq_view(tasks@) == before + model::content_jobs(all).take(iter.index()),
        {
            tasks.push(Job::ServeContent(output));
        }
        assert(model::content_jobs(all).take(all.len() as int) =~= model::content_jobs(all));
    }

    /// Serves one output of the content page.
    pub fn serve_content(&mut self, tasks: &mut Vec<Job>, output: content::Output)
        ensures
            final(self)@ == old(self)@.serve_content(output@).0,
            views::seq_view(final(tasks)@) == views::seq_view(old(tasks)@)
                + old(self)@.serve_content(output@).1,
            old(self)@.wf() ==> final(self)@.wf(),
    {
        match output {
            content::Output::Focus(id) => {
                tasks.push(Job::Perform(Command::Focus(id)));
            },
            content::Output::OpenTaskDetails(task) => {
                self.details.show(task);
                self.toggle_page(tasks, ContextPage::TaskDetails);
            },
            content::Output::ToggleHideCompleted(list) => {
                if let Some(mut shown) = self.nav_model.resolve(None) {
                    shown.hide_completed = list.hide_completed;
                    if let Some(id) = self.nav_model.active {
                        self.nav_model.set_list(id, shown);
                    }
                    tasks.push(Job::Perform(Command::UpdateList(list)));
                }
            },
        }
    }

    /// Takes over the details page and queues its outputs, to be served one after the other.
    pub fn update_details(
        &mut self,
        tasks: &mut Vec<Job>,
        details: Details,
        outputs: Vec<details::Output>,
    )
        ensures
            final(self)@ == (TasksView { details: details@, ..old(self)@ }),
            views::seq_view(final(tasks)@) == views::seq_view(old(tasks)@)
                + model::details_jobs(views::seq_view(outputs@)),
    {
        self.details = details;
        let ghost before = views::seq_view(tasks@);
        let ghost all = views::seq_view(outputs@);
        for output in iter: outputs
            invariant
                iter.seq() == outputs@,
                all == views::seq_view(outputs@),
                views::seq_view(tasks@) == before + model::details_jobs(all).take(iter.index()),
        {
            tasks.push(Job::ServeDetails(output));
        }
        assert(model::details_jobs(all).take(all.len() as int) =~= model::details_jobs(all));
    }

    /// Serves one output of the details page.
    pub fn serve_details(&mut self, tasks: &mut Vec<Job>, output: details::Output)
        ensures
            final(self)@ == old(self)@.serve_details(output@).0,
            views::seq_view(final(tasks)@) == views::seq_view(old(tasks)@)
                + old(self)@.serve_details(output@).1,
    {
        match output {
            details::Output::OpenCalendarDialog => {
                tasks.push(Job::Perform(Command::ReadCalendar));
            },
            details::Output::RefreshTask(task) => {
                tell_content(tasks, content::Message::RefreshTask(task));
            },
        }
    }

    /// Takes over what the windowing side says of the main window and the context drawer.
    pub fn window_changed(&mut self, main_window: Option<u64>, show_context: bool)
        ensures
            final(self)@ == (TasksView { main_window, show_context, ..old(self)@ }),
            old(self)@.wf() ==> final(self)@.wf(),
    {
        self.main_window = main_window;
        self.show_context = show_context;
    }

    /// The escape key: closes the foremost dialog, or the context drawer if there is none.
    pub fn on_escape(&mut self)
        ensures
            final(self)@ == old(self)@.escape(),
    {
        if self.dialog_pages.pop_front().is_some() {
            return ;
        }
        self.show_context = false;
    }

    /// Records how a connection test ended.
    pub fn connection_tested(&mut self, outcome: &TestOutcome)
        ensures
            final(self)@ == old(self)@.tested(outcome@),
    {
        self.preferences.test_status = Some(preferences::outcome_message(outcome));
        self.preferences.testing = false;
    }

    /// Whether an event can be handled.
    pub fn admits(&self, event: &Event) -> (r: bool)
        ensures
            r == self@.admits(event@),
    {
        match event {
            Event::Message(message) => self.admits_message(message),
            Event::ListsFetched(Some(lists)) => self.has_room(lists.len()),
            Event::ListCreated(Some(_)) => self.has_room(1),
            _ => true,
        }
    }

    /// Handles an event.
    pub fn handle(&mut self, event: Event) -> (tasks: Vec<Job>)
        requires
            old(self)@.admits(event@),
        ensures
            final(self)@ == old(self)@.handle(event@).0,
            views::seq_view(tasks@) == old(self)@.handle(event@).1,
            old(self)@.wf() ==> final(self)@.wf(),
    {
        proof {
            if self@.wf() {
                laws::lemma_handle_wf(self@, event@);
            }
        }
        let mut tasks: Vec<Job> = Vec::new();
        match event {
            Event::Message(message) => {
                return self.update(message);
            },
            Event::NavSelected(entity) => {
                return self.on_nav_select(entity);
            },
            Event::Escape => {
                self.on_escape();
            },
            Event::ContentUpdated(outputs) => {
                self.update_content(&mut tasks, outputs);
            },
            Event::DetailsUpdated(details, outputs) => {
                self.update_details(&mut tasks, details, outputs);
            },
            Event::DueDateSet(details) => {
                self.details = details;
            },
            Event::ListsFetched(lists) => {
                if let Some(lists) = lists {
                    self.populate(&mut tasks, lists);
                }
            },
            Event::ListCreated(list) => {
                if let Some(list) = list {
                    self.add_list(&mut tasks, list);
                }
            },
            Event::TasksExported(text) => {
                if let Some(text) = text {
                    self.open_dialog(&mut tasks, DialogPage::Export(text));
                }
            },
            Event::CalendarRead(calendar) => {
                self.open_dialog(&mut tasks, DialogPage::Calendar(calendar));
            },
            Event::ConnectionTested(outcome) => {
                self.connection_tested(&outcome);
            },
        }
        tasks
    }
}

} // verus!
