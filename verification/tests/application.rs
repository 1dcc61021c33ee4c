use tasks::actions::{
    ApplicationAction, ContextPage, Modifiers, NavMenuAction, TasksAction,
};
use tasks::app::{Flags, Tasks};
use tasks::config::{AppTheme, ConfigEntry, TasksConfig};
use tasks::content;
use tasks::details;
use tasks::details::{Calendar, Date, Details};
use tasks::dialog::{DialogAction, DialogPage};
use tasks::message::{Command, Event, Job, Message};
use tasks::preferences::StoredKey;
use tasks::runtime::Runtime;
use tasks::storage::{List, Task};
use tasks::ui;

fn list(id: u64, name: &str, icon: Option<&str>) -> List {
    List { id, name: name.to_string(), icon: icon.map(|s| s.to_string()), hide_completed: false }
}

fn flags(window: Option<u64>) -> Flags {
    Flags {
        config_handler: true,
        config: TasksConfig {
            app_theme: AppTheme::Light,
            hide_completed: false,
            llm_provider: String::new(),
            llm_model: String::new(),
            llm_api_base: String::new(),
        },
        details: Details {
            task: Task { id: 0, notes: String::new(), priority: 0 },
            text_editor_content: String::new(),
            priorities: 3,
            active_priority: None,
        },
        tasks_label: "Aufgaben".to_string(),
        match_desktop_label: "Wie System".to_string(),
        dark_label: "Dunkel".to_string(),
        light_label: "Hell".to_string(),
        show_context: false,
        key_binds: vec![
            Message::Application(ApplicationAction::WindowClose),
            Message::Application(ApplicationAction::WindowNew),
            Message::Open("https://a".to_string()),
        ],
        dialog_text_input: 77,
        main_window: window,
        stored_key: StoredKey::NoEntry,
        env_key: None,
    }
}

fn app(names: &[&str]) -> Tasks {
    let mut app = Tasks::init(flags(Some(1))).0;
    let lists = names.iter().enumerate().map(|(i, n)| list(i as u64 + 10, n, None)).collect();
    app.update(Message::Tasks(TasksAction::PopulateLists(lists)));
    app
}

fn act(app: &mut Tasks, action: ApplicationAction) -> Vec<Job> {
    app.update(Message::Application(action))
}

fn dialog(app: &mut Tasks, action: DialogAction) -> Vec<Job> {
    act(app, ApplicationAction::Dialog(action))
}

fn names(app: &Tasks) -> Vec<String> {
    app.nav_model.items.iter().map(|i| i.text.clone()).collect()
}

fn is_focus(job: &Job, id: u64) -> bool {
    matches!(job, Job::Perform(Command::Focus(i)) if *i == id)
}

fn set_list(job: &Job) -> Option<&List> {
    match job {
        Job::Perform(Command::UpdateContent(content::Message::SetList(Some(list)))) => Some(list),
        _ => None,
    }
}

#[test]
fn start_fetches_titles_and_adapts() {
    let (app, jobs) = Tasks::init(flags(Some(9)));
    assert_eq!(jobs.len(), 3);
    assert!(matches!(&jobs[0], Job::Perform(Command::FetchLists)));
    assert!(matches!(&jobs[1], Job::TitleWindow(9, t) if t == "Aufgaben"));
    assert!(matches!(&jobs[2], Job::Perform(Command::ToggleNavBarCondensed)));
    assert_eq!(app.app_themes, vec!["Wie System", "Dunkel", "Hell"]);
    assert_eq!(app.context_page, ContextPage::Settings);
    assert!(app.nav_model.items.is_empty() && app.dialog_pages.is_empty());
    assert_eq!(Tasks::init(flags(None)).1.len(), 2);
}

#[test]
fn lists_are_shown_in_order_and_the_first_is_chosen() {
    let mut app = Tasks::init(flags(Some(1))).0;
    let lists = vec![list(5, "Home", None), list(6, "Work", Some("bag"))];
    let jobs = app.handle(Event::ListsFetched(Some(lists)));
    assert_eq!(names(&app), vec!["Home", "Work"]);
    assert_eq!(app.nav_model.items[0].icon, "view-list-symbolic");
    assert_eq!(app.nav_model.items[1].icon, "bag");
    assert_eq!(app.nav_model.active, Some(app.nav_model.items[0].id));
    assert_eq!(jobs.len(), 1);
    assert_eq!(set_list(&jobs[0]).map(|l| l.id), Some(5));
    assert_eq!(app.window_title.as_deref(), Some("Home - Aufgaben"));
}

#[test]
fn no_lists_choose_nothing() {
    let mut app = Tasks::init(flags(Some(1))).0;
    assert!(app.handle(Event::ListsFetched(Some(vec![]))).is_empty());
    assert!(app.handle(Event::ListsFetched(None)).is_empty());
    assert_eq!(app.nav_model.active, None);
    assert_eq!(app.window_title, None);
}

#[test]
fn choosing_an_item_shows_its_list() {
    let mut app = app(&["A", "B"]);
    let b = app.nav_model.items[1].id;
    let jobs = app.handle(Event::NavSelected(b));
    assert_eq!(app.nav_model.active, Some(b));
    assert_eq!(set_list(&jobs[0]).map(|l| l.name.clone()), Some("B".to_string()));
    assert_eq!(app.window_title.as_deref(), Some("B - Aufgaben"));
    assert!(app.handle(Event::NavSelected(99)).is_empty());
    assert_eq!(app.nav_model.active, Some(b));
}

#[test]
fn without_a_window_no_title() {
    let mut app = Tasks::init(flags(None)).0;
    app.update(Message::Tasks(TasksAction::AddList(list(1, "A", None))));
    assert_eq!(app.window_title, None);
    assert!(act(&mut app, ApplicationAction::WindowClose).is_empty());
}

#[test]
fn a_new_list_goes_from_dialog_to_bar() {
    let mut app = app(&["A"]);
    let jobs = dialog(&mut app, DialogAction::Open(DialogPage::New(String::new())));
    assert!(jobs.len() == 1 && is_focus(&jobs[0], 77));
    dialog(&mut app, DialogAction::Update(DialogPage::New("B".to_string())));
    let jobs = dialog(&mut app, DialogAction::Complete);
    assert!(app.dialog_pages.is_empty());
    assert_eq!(jobs.len(), 1);
    assert!(matches!(&jobs[0], Job::Perform(Command::CreateList(n)) if n == "B"));
    let jobs = app.handle(Event::ListCreated(Some(list(20, "B", None))));
    assert_eq!(names(&app), vec!["A", "B"]);
    assert_eq!(app.nav_model.active, Some(app.nav_model.items[1].id));
    assert_eq!(set_list(&jobs[0]).map(|l| l.id), Some(20));
    assert!(app.handle(Event::ListCreated(None)).is_empty());
    assert_eq!(names(&app).len(), 2);
}

#[test]
fn renaming_the_active_list() {
    let mut app = app(&["A", "B"]);
    let a = app.nav_model.items[0].id;
    act(&mut app, ApplicationAction::NavMenuAction(NavMenuAction::Rename(a)));
    assert!(matches!(&app.dialog_pages[0],
        DialogPage::Rename(Some(id), n) if *id == a && n == "A"));
    dialog(&mut app, DialogAction::Update(DialogPage::Rename(Some(a), "Z".to_string())));
    let jobs = dialog(&mut app, DialogAction::Complete);
    assert_eq!(names(&app), vec!["Z", "B"]);
    assert_eq!(app.nav_model.items[0].list.name, "Z");
    assert_eq!(jobs.len(), 2);
    assert!(matches!(&jobs[0], Job::Perform(Command::UpdateList(l)) if l.name == "Z"));
    assert_eq!(set_list(&jobs[1]).map(|l| l.name.clone()), Some("Z".to_string()));
}

#[test]
fn renaming_another_list_puts_the_text_on_the_active_item() {
    let mut app = app(&["A", "B"]);
    let b = app.nav_model.items[1].id;
    dialog(&mut app, DialogAction::Open(DialogPage::Rename(Some(b), String::new())));
    dialog(&mut app, DialogAction::Update(DialogPage::Rename(Some(b), "Z".to_string())));
    dialog(&mut app, DialogAction::Complete);
    assert_eq!(names(&app), vec!["Z", "B"]);
    assert_eq!(app.nav_model.items[0].list.name, "A");
    assert_eq!(app.nav_model.items[1].list.name, "Z");
}

#[test]
fn renaming_nothing_opens_no_dialog_but_focuses() {
    let mut app = app(&[]);
    let jobs = dialog(&mut app, DialogAction::Open(DialogPage::Rename(None, String::new())));
    assert!(app.dialog_pages.is_empty());
    assert!(jobs.len() == 1 && is_focus(&jobs[0], 77));
}

#[test]
fn an_icon_goes_to_the_active_item_and_its_list() {
    let mut app = app(&["A", "B"]);
    let a = app.nav_model.items[0].id;
    act(&mut app, ApplicationAction::NavMenuAction(NavMenuAction::SetIcon(a)));
    assert!(matches!(&app.dialog_pages[0],
        DialogPage::Icon(Some(_), n, s) if n.is_empty() && s.is_empty()));
    let page = DialogPage::Icon(Some(a), "star".to_string(), "st".to_string());
    dialog(&mut app, DialogAction::Update(page));
    let jobs = dialog(&mut app, DialogAction::Complete);
    assert_eq!(app.nav_model.items[0].icon, "star");
    assert_eq!(app.nav_model.items[0].list.icon.as_deref(), Some("star"));
    assert_eq!(app.nav_model.items[1].icon, "view-list-symbolic");
    assert_eq!(jobs.len(), 2);
    assert!(matches!(&jobs[0],
        Job::Perform(Command::UpdateList(l)) if l.icon.as_deref() == Some("star")));
}

#[test]
fn an_icon_dialog_about_another_list() {
    let mut app = app(&["A", "B"]);
    let b = app.nav_model.items[1].id;
    let page = DialogPage::Icon(Some(b), "star".to_string(), String::new());
    dialog(&mut app, DialogAction::Open(page));
    dialog(&mut app, DialogAction::Complete);
    assert_eq!(names(&app), vec!["B", "B"]);
    assert_eq!(app.nav_model.items[0].list.icon.as_deref(), Some("star"));
    assert_eq!(app.nav_model.items[1].list.icon, None);
}

#[test]
fn an_icon_dialog_about_a_missing_list() {
    let mut app = app(&["A"]);
    let page = DialogPage::Icon(Some(99), "star".to_string(), String::new());
    dialog(&mut app, DialogAction::Open(page));
    dialog(&mut app, DialogAction::Complete);
    assert_eq!(app.nav_model.items[0].icon, "view-list-symbolic");
    assert_eq!(app.nav_model.items[0].list.icon.as_deref(), Some("star"));
}

#[test]
fn deleting_leaves_three_jobs() {
    let mut app = app(&["A", "B"]);
    let b = app.nav_model.items[1].id;
    act(&mut app, ApplicationAction::NavMenuAction(NavMenuAction::Delete(b)));
    assert!(matches!(&app.dialog_pages[0], DialogPage::Delete(Some(id)) if *id == b));
    let jobs = dialog(&mut app, DialogAction::Complete);
    assert_eq!(jobs.len(), 3);
    assert!(matches!(&jobs[0], Job::Perform(Command::DeleteList(l)) if l.name == "B"));
    assert!(matches!(&jobs[1],
        Job::Perform(Command::UpdateContent(content::Message::SetList(None)))));
    assert!(matches!(&jobs[2], Job::RemoveActiveItem));
    app.remove_active_item();
    assert_eq!(names(&app), vec!["B"]);
    assert_eq!(app.nav_model.active, None);
    app.remove_active_item();
    assert_eq!(names(&app), vec!["B"]);
    let jobs = app.update(Message::Tasks(TasksAction::DeleteList(None)));
    assert_eq!(jobs.len(), 1);
    assert!(matches!(&jobs[0], Job::RemoveActiveItem));
}

#[test]
fn names_are_never_given_twice() {
    let mut app = app(&["A", "B"]);
    let gone = app.nav_model.items[0].id;
    app.remove_active_item();
    app.update(Message::Tasks(TasksAction::AddList(list(1, "C", None))));
    assert!(app.nav_model.items.iter().all(|i| i.id != gone));
    assert_eq!(names(&app), vec!["B", "C"]);
}

#[test]
fn a_new_item_is_found_under_its_name() {
    let mut app = app(&["A"]);
    let next = app.nav_model.next;
    let id = app.create_nav_item(&list(8, "B", Some("star")));
    assert_eq!(id, next);
    assert_eq!(app.nav_model.data(id).map(|l| l.id), Some(8));
    assert_eq!(app.nav_model.items[1].icon, "star");
    assert_eq!(app.nav_model.active, Some(app.nav_model.items[0].id));
}

#[test]
fn adding_and_deleting_a_list_gives_back_the_items() {
    let mut r = Runtime::start(flags(None));
    while !r.is_idle() {
        r.step();
    }
    r.submit(Event::ListsFetched(Some(vec![list(5, "Home", None), list(6, "Work", None)])));
    while !r.is_idle() {
        r.step();
    }
    r.submit(Event::Message(Message::Tasks(TasksAction::AddList(list(7, "New", None)))));
    r.submit(Event::Message(Message::Tasks(TasksAction::DeleteList(None))));
    let mut commands = vec![];
    while !r.is_idle() {
        if let Some(command) = r.step() {
            if let Command::UpdateContent(_) = &command {
                r.answer(Event::ContentUpdated(vec![]));
            }
            commands.push(command);
        }
    }
    assert_eq!(names(&r.tasks), vec!["Home", "Work"]);
    assert_eq!(r.tasks.nav_model.active, None);
    assert_eq!(commands.len(), 3);
    assert!(matches!(&commands[0],
        Command::UpdateContent(content::Message::SetList(Some(l))) if l.id == 7));
    assert!(matches!(&commands[1], Command::DeleteList(l) if l.id == 7));
    assert!(matches!(&commands[2], Command::UpdateContent(content::Message::SetList(None))));
}

#[test]
fn startup_without_lists_still_titles_the_window() {
    for lists in [None, Some(vec![])] {
        let mut r = Runtime::start(flags(Some(9)));
        assert!(matches!(r.step(), Some(Command::FetchLists)));
        r.answer(Event::ListsFetched(lists));
        assert!(r.step().is_none());
        assert!(matches!(r.step(), Some(Command::SetWindowTitle(9, t)) if t == "Aufgaben"));
        assert!(matches!(r.step(), Some(Command::ToggleNavBarCondensed)));
        assert!(r.is_idle());
        assert!(r.tasks.nav_model.items.is_empty());
    }
}

#[test]
fn the_windowing_side_changes_window_and_drawer() {
    let mut app = app(&["A"]);
    app.window_changed(None, true);
    assert!(app.show_context && app.main_window.is_none());
    assert!(act(&mut app, ApplicationAction::WindowClose).is_empty());
}

#[test]
fn exporting_asks_the_storage_and_shows_the_text() {
    let mut app = app(&["A"]);
    let a = app.nav_model.items[0].id;
    let jobs = act(&mut app, ApplicationAction::NavMenuAction(NavMenuAction::Export(a)));
    assert!(matches!(&jobs[0], Job::Perform(Command::ExportTasks(l)) if l.name == "A"));
    assert!(act(&mut app, ApplicationAction::NavMenuAction(NavMenuAction::Export(99))).is_empty());
    app.handle(Event::TasksExported(Some("# A".to_string())));
    assert!(matches!(&app.dialog_pages[0], DialogPage::Export(t) if t == "# A"));
    let jobs = dialog(&mut app, DialogAction::Complete);
    assert!(matches!(&jobs[0], Job::Perform(Command::SetClipboard(t)) if t == "# A"));
    assert!(app.handle(Event::TasksExported(None)).is_empty());
    assert!(app.dialog_pages.is_empty());
}

#[test]
fn the_calendar_sets_the_due_date() {
    let mut app = app(&["A"]);
    let mut jobs = vec![];
    app.serve_details(&mut jobs, details::Output::OpenCalendarDialog);
    assert!(matches!(&jobs[0], Job::Perform(Command::ReadCalendar)));
    let day = Date { year: 2024, month: 2, day: 29 };
    app.handle(Event::CalendarRead(Calendar { selected: day, visible: day }));
    let jobs = dialog(&mut app, DialogAction::Complete);
    assert!(matches!(&jobs[0], Job::Perform(Command::SetDueDate(d)) if *d == day));
    let page = Details {
        task: Task { id: 4, notes: "n".to_string(), priority: 1 },
        text_editor_content: "n".to_string(),
        priorities: 3,
        active_priority: Some(1),
    };
    assert!(app.handle(Event::DueDateSet(page)).is_empty());
    assert_eq!(app.details.task.id, 4);
}

#[test]
fn dialogs_queue_up() {
    let mut app = app(&["A"]);
    dialog(&mut app, DialogAction::Open(DialogPage::New("1".to_string())));
    dialog(&mut app, DialogAction::Open(DialogPage::New("2".to_string())));
    assert!(matches!(app.dialog(), Some((DialogPage::New(n), 77)) if n == "1"));
    dialog(&mut app, DialogAction::Nothing);
    assert_eq!(app.dialog_pages.len(), 2);
    dialog(&mut app, DialogAction::Close);
    assert!(matches!(app.dialog(), Some((DialogPage::New(n), 77)) if n == "2"));
    dialog(&mut app, DialogAction::Close);
    assert!(app.dialog().is_none());
    assert!(dialog(&mut app, DialogAction::Close).is_empty());
    assert!(dialog(&mut app, DialogAction::Complete).is_empty());
    let update = Message::Application(ApplicationAction::Dialog(DialogAction::Update(
        DialogPage::New(String::new()),
    )));
    assert!(!app.admits_message(&update));
}

#[test]
fn escape_closes_dialogs_before_the_drawer() {
    let mut app = app(&["A"]);
    act(&mut app, ApplicationAction::ToggleContextDrawer);
    dialog(&mut app, DialogAction::Open(DialogPage::New(String::new())));
    app.handle(Event::Escape);
    assert!(app.dialog_pages.is_empty() && app.show_context);
    app.handle(Event::Escape);
    assert!(!app.show_context);
}

#[test]
fn the_drawer_toggles() {
    let mut app = app(&["A"]);
    assert!(app.context_drawer().is_none());
    let jobs = act(&mut app, ApplicationAction::ToggleContextPage(ContextPage::About));
    assert!(matches!(&jobs[0],
        Job::Perform(Command::UpdateContent(content::Message::ContextMenuOpen(true)))));
    assert!(app.show_context && app.context_page == ContextPage::About);
    let drawer = app.context_drawer().unwrap();
    assert!(matches!(drawer.body, ui::DrawerBody::About(a) if a.version == "0.2.0"));
    assert!(matches!(drawer.on_close,
        Message::Application(ApplicationAction::ToggleContextDrawer)));
    act(&mut app, ApplicationAction::ToggleContextPage(ContextPage::TaskDetails));
    assert!(app.show_context && app.context_page == ContextPage::TaskDetails);
    assert!(matches!(app.context_drawer().unwrap().body,
        ui::DrawerBody::TaskDetails(d) if d.task.id == app.details.task.id));
    let jobs = act(&mut app, ApplicationAction::ToggleContextPage(ContextPage::TaskDetails));
    assert!(!app.show_context);
    assert!(matches!(&jobs[0],
        Job::Perform(Command::UpdateContent(content::Message::ContextMenuOpen(false)))));
    act(&mut app, ApplicationAction::ToggleContextDrawer);
    act(&mut app, ApplicationAction::ToggleContextDrawer);
    assert!(!app.show_context && app.context_page == ContextPage::TaskDetails);
}

#[test]
fn task_details_are_filled() {
    let mut app = app(&["A"]);
    let mut jobs = vec![];
    let task = Task { id: 3, notes: "milk".to_string(), priority: 2 };
    app.serve_content(&mut jobs, content::Output::OpenTaskDetails(task));
    assert_eq!(app.details.task.id, 3);
    assert_eq!(app.details.text_editor_content, "milk");
    assert_eq!(app.details.active_priority, Some(2));
    assert!(app.show_context && app.context_page == ContextPage::TaskDetails);
    let task = Task { id: 4, notes: String::new(), priority: 3 };
    app.serve_content(&mut jobs, content::Output::OpenTaskDetails(task));
    assert_eq!(app.details.active_priority, Some(2));
    assert!(!app.show_context);
}

#[test]
fn hiding_completed_tasks_of_a_list() {
    let mut app = app(&["A"]);
    let mut jobs = vec![];
    let mut changed = list(10, "other", None);
    changed.hide_completed = true;
    app.serve_content(&mut jobs, content::Output::ToggleHideCompleted(changed));
    assert!(app.nav_model.items[0].list.hide_completed);
    assert_eq!(app.nav_model.items[0].list.name, "A");
    assert!(matches!(&jobs[0], Job::Perform(Command::UpdateList(l)) if l.name == "other"));
    app.remove_active_item();
    jobs.clear();
    app.serve_content(&mut jobs, content::Output::ToggleHideCompleted(list(1, "x", None)));
    assert!(jobs.is_empty());
}

#[test]
fn hiding_completed_tasks_everywhere() {
    let mut app = app(&["A"]);
    let jobs = act(&mut app, ApplicationAction::ToggleHideCompleted(true));
    assert!(app.config.hide_completed);
    assert_eq!(jobs.len(), 2);
    assert!(matches!(&jobs[0],
        Job::Perform(Command::StoreConfig(ConfigEntry::HideCompleted(true)))));
    assert!(matches!(&jobs[1],
        Job::Perform(Command::UpdateContent(content::Message::SetConfig(c))) if c.hide_completed));
    app.config_handler = false;
    assert!(act(&mut app, ApplicationAction::ToggleHideCompleted(false)).is_empty());
    assert!(app.config.hide_completed);
}

#[test]
fn keys_send_the_messages_of_the_matching_bindings() {
    let mut app = app(&["A"]);
    let jobs = act(&mut app, ApplicationAction::Key(vec![true, false, true]));
    assert_eq!(jobs.len(), 2);
    assert!(matches!(&jobs[0],
        Job::Handle(Event::Message(Message::Application(ApplicationAction::WindowClose)))));
    assert!(matches!(&jobs[1],
        Job::Handle(Event::Message(Message::Open(u))) if u == "https://a"));
    assert!(act(&mut app, ApplicationAction::Key(vec![])).is_empty());
    assert_eq!(act(&mut app, ApplicationAction::Key(vec![false, true, false, true])).len(), 1);
    act(&mut app, ApplicationAction::Modifiers(Modifiers { bits: 5 }));
    assert_eq!(app.modifiers.bits, 5);
}

#[test]
fn single_commands() {
    let mut app = app(&["A"]);
    let one = |jobs: Vec<Job>| -> Command {
        assert_eq!(jobs.len(), 1);
        match jobs.into_iter().next() {
            Some(Job::Perform(command)) => command,
            _ => panic!("no command"),
        }
    };
    assert!(matches!(one(act(&mut app, ApplicationAction::WindowClose)), Command::CloseWindow(1)));
    assert!(matches!(one(act(&mut app, ApplicationAction::WindowNew)), Command::SpawnWindow));
    assert!(matches!(one(act(&mut app, ApplicationAction::Focus(4))), Command::Focus(4)));
    assert!(matches!(one(app.update(Message::Open("u".to_string()))),
        Command::OpenUrl(u) if u == "u"));
    assert!(matches!(one(app.update(Message::Tasks(TasksAction::FetchLists))),
        Command::FetchLists));
    assert!(matches!(one(app.update(Message::Details(details::Message::Page(8)))),
        Command::UpdateDetails(details::Message::Page(8))));
    assert!(matches!(one(app.update(Message::Content(content::Message::Page(9)))),
        Command::UpdateContent(content::Message::Page(9))));
    for (action, order) in [
        (ApplicationAction::SortByNameAsc, content::SortType::NameAsc),
        (ApplicationAction::SortByNameDesc, content::SortType::NameDesc),
        (ApplicationAction::SortByDateAsc, content::SortType::DateAsc),
        (ApplicationAction::SortByDateDesc, content::SortType::DateDesc),
    ] {
        assert!(matches!(one(act(&mut app, action)),
            Command::UpdateContent(content::Message::SetSort(o)) if o == order));
    }
    let mut jobs = vec![];
    let task = Task { id: 6, notes: String::new(), priority: 0 };
    app.serve_details(&mut jobs, details::Output::RefreshTask(task));
    assert!(matches!(one(jobs),
        Command::UpdateContent(content::Message::RefreshTask(t)) if t.id == 6));
    let mut jobs = vec![];
    app.serve_content(&mut jobs, content::Output::Focus(5));
    assert!(matches!(one(jobs), Command::Focus(5)));
}

#[test]
fn room_for_names() {
    let mut app = app(&["A"]);
    assert!(app.has_room(1));
    app.nav_model.next = u64::MAX - 1;
    assert!(app.has_room(1) && !app.has_room(2));
    assert!(!app.admits(&Event::ListsFetched(Some(vec![list(1, "x", None), list(2, "y", None)]))));
    assert!(app.admits(&Event::ListCreated(Some(list(1, "x", None)))));
    assert!(app.admits(&Event::ListsFetched(None)));
}

#[test]
fn startup_runs_to_the_end() {
    let mut r = Runtime::start(flags(Some(9)));
    assert!(matches!(r.step(), Some(Command::FetchLists)));
    r.answer(Event::ListsFetched(Some(vec![list(5, "Home", None), list(6, "Work", None)])));
    assert!(r.is_ready());
    assert!(r.step().is_none());
    assert_eq!(r.tasks.window_title.as_deref(), Some("Home - Aufgaben"));
    assert!(matches!(r.step(), Some(Command::UpdateContent(content::Message::SetList(Some(_))))));
    r.answer(Event::ContentUpdated(vec![]));
    assert!(r.step().is_none());
    assert!(matches!(r.step(), Some(Command::SetWindowTitle(9, t)) if t == "Aufgaben"));
    assert_eq!(r.tasks.window_title.as_deref(), Some("Aufgaben"));
    assert!(matches!(r.step(), Some(Command::ToggleNavBarCondensed)));
    assert!(r.is_idle() && !r.is_ready());
}

#[test]
fn outputs_are_served_one_after_the_other() {
    let mut r = Runtime::start(flags(None));
    while !r.is_idle() {
        r.step();
    }
    r.submit(Event::ContentUpdated(vec![
        content::Output::OpenTaskDetails(Task { id: 1, notes: String::new(), priority: 0 }),
        content::Output::Focus(2),
    ]));
    r.submit(Event::Message(Message::Application(ApplicationAction::WindowNew)));
    assert!(r.step().is_none());
    assert!(r.step().is_none());
    assert!(matches!(r.step(),
        Some(Command::UpdateContent(content::Message::ContextMenuOpen(true)))));
    r.answer(Event::ContentUpdated(vec![content::Output::Focus(1)]));
    assert!(r.step().is_none());
    assert!(r.step().is_none());
    assert!(matches!(r.step(), Some(Command::Focus(1))));
    assert!(r.step().is_none());
    assert!(matches!(r.step(), Some(Command::Focus(2))));
    assert!(r.step().is_none());
    assert!(matches!(r.step(), Some(Command::SpawnWindow)));
    assert!(r.is_idle());
}

#[test]
fn details_outputs_are_served_after_the_page_is_taken_over() {
    let mut r = Runtime::start(flags(None));
    while !r.is_idle() {
        r.step();
    }
    r.submit(Event::Message(Message::Details(details::Message::Page(1))));
    assert!(r.step().is_none());
    assert!(matches!(r.step(), Some(Command::UpdateDetails(details::Message::Page(1)))));
    let task = Task { id: 2, notes: "x".to_string(), priority: 0 };
    let page = Details {
        task: task.clone(),
        text_editor_content: "x".to_string(),
        priorities: 3,
        active_priority: None,
    };
    r.answer(Event::DetailsUpdated(page, vec![details::Output::RefreshTask(task)]));
    assert!(r.step().is_none());
    assert_eq!(r.tasks.details.task.id, 2);
    assert!(r.step().is_none());
    assert!(matches!(r.step(),
        Some(Command::UpdateContent(content::Message::RefreshTask(t))) if t.id == 2));
}

#[test]
fn deleting_runs_in_order() {
    let mut r = Runtime::start(flags(None));
    while !r.is_idle() {
        r.step();
    }
    r.submit(Event::ListsFetched(Some(vec![list(5, "Home", None), list(6, "Work", None)])));
    while !r.is_idle() {
        r.step();
    }
    r.submit(Event::Message(Message::Tasks(TasksAction::DeleteList(None))));
    assert!(r.step().is_none());
    assert!(matches!(r.step(), Some(Command::DeleteList(l)) if l.name == "Home"));
    assert!(matches!(r.step(), Some(Command::UpdateContent(content::Message::SetList(None)))));
    r.answer(Event::ContentUpdated(vec![]));
    assert!(r.step().is_none());
    assert_eq!(names(&r.tasks), vec!["Home", "Work"]);
    assert!(r.step().is_none());
    assert_eq!(names(&r.tasks), vec!["Work"]);
    assert!(r.is_idle());
}

#[test]
fn a_step_needs_a_dialog_to_replace() {
    let mut r = Runtime::start(flags(None));
    while !r.is_idle() {
        r.step();
    }
    r.submit(Event::Message(Message::Application(ApplicationAction::Dialog(
        DialogAction::Update(DialogPage::New(String::new())),
    ))));
    assert!(!r.is_ready() && !r.is_idle());
}
