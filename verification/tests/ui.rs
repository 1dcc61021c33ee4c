use tasks::actions::{ApplicationAction, ContextPage, Modifiers, NavMenuAction};
use tasks::app::{Flags, Tasks};
use tasks::config::{AppTheme, TasksConfig};
use tasks::content;
use tasks::details;
use tasks::details::Details;
use tasks::message::{Message, PreferencesMessage};
use tasks::preferences::StoredKey;
use tasks::storage::Task;
use tasks::ui::{
    about, window_event_message, Caption, Choice, ConfigUpdate, DrawerBody, DrawerEvent, Input,
    Label, Report, Row, Source, WindowEvent, APP_ID,
};

fn app() -> Tasks {
    Tasks::init(Flags {
        config_handler: true,
        config: TasksConfig {
            app_theme: AppTheme::Light,
            hide_completed: false,
            llm_provider: String::new(),
            llm_model: "gpt-4.1".to_string(),
            llm_api_base: "http://b".to_string(),
        },
        details: Details {
            task: Task { id: 0, notes: String::new(), priority: 0 },
            text_editor_content: String::new(),
            priorities: 3,
            active_priority: None,
        },
        tasks_label: "Tasks".to_string(),
        match_desktop_label: "Match desktop".to_string(),
        dark_label: "Dark".to_string(),
        light_label: "Light".to_string(),
        show_context: true,
        key_binds: vec![],
        dialog_text_input: 1,
        main_window: None,
        stored_key: StoredKey::Password("secret".to_string()),
        env_key: None,
    })
    .0
}

#[test]
fn settings_show_the_state() {
    let mut app = app();
    let settings = app.settings();
    assert_eq!(settings.spacing, 16);
    assert_eq!(settings.sections.len(), 2);
    assert!(matches!(settings.sections[0].title, Caption::Localized(Label::Appearance)));
    assert_eq!(settings.sections[0].rows.len(), 1);
    assert!(matches!(&settings.sections[0].rows[0],
        Row::Dropdown { caption: Caption::Localized(Label::Theme), options, selected: 2,
            choice: Choice::Theme } if options == &vec!["Match desktop", "Dark", "Light"]));
    let rows = &settings.sections[1].rows;
    assert!(matches!(&settings.sections[1].title, Caption::Literal(t) if t == "AI"));
    assert_eq!(rows.len(), 6);
    assert!(matches!(&rows[0],
        Row::Dropdown { caption: Caption::Literal(c), options, selected: 0,
            choice: Choice::Provider } if c == "Provider" && options.len() == 1));
    assert!(matches!(&rows[1],
        Row::Dropdown { caption: Caption::Literal(c), options, selected: 2,
            choice: Choice::Model } if c == "Model" && options.len() == 7));
    assert!(matches!(&rows[2],
        Row::TextInput { caption: Caption::Literal(c), placeholder, value, width: Some(420),
            input: Input::ApiBase }
            if c == "API Base URL" && placeholder == "https://api.openai.com"
                && value == "http://b"));
    assert!(matches!(&rows[3],
        Row::TextInput { caption: Caption::Literal(c), placeholder, value, width: None,
            input: Input::ApiKey }
            if c == "API Key" && placeholder == "••••••••" && value == "secret"));
    match &rows[4] {
        Row::Buttons { buttons, spacing } => {
            assert_eq!(*spacing, 8);
            assert_eq!(buttons.len(), 2);
            assert_eq!(buttons[0].text, "Test Connection");
            assert!(matches!(buttons[0].on_press,
                Some(Message::Preferences(PreferencesMessage::Test))));
            assert_eq!(buttons[1].text, "Save");
            assert!(matches!(buttons[1].on_press,
                Some(Message::Preferences(PreferencesMessage::Save))));
        }
        _ => panic!("no buttons"),
    }
    assert!(matches!(&rows[5], Row::Text(t) if t.is_empty()));
    app.update(Message::Preferences(PreferencesMessage::Test));
    let settings = app.settings();
    match &settings.sections[1].rows[4] {
        Row::Buttons { buttons, .. } => assert!(buttons[0].on_press.is_none()),
        _ => panic!("no buttons"),
    }
    assert!(matches!(&settings.sections[1].rows[5], Row::Text(t) if t == "Testing…"));
}

#[test]
fn the_drawer_starts_with_the_settings() {
    let drawer = app().context_drawer().unwrap();
    assert_eq!(drawer.title, ContextPage::Settings);
    assert!(matches!(drawer.body, DrawerBody::Settings(s) if s.sections.len() == 2));
}

#[test]
fn controls_send_messages() {
    assert!(matches!(Choice::Theme.message(1),
        Message::Application(ApplicationAction::AppTheme(1))));
    assert!(matches!(Choice::Provider.message(2),
        Message::Preferences(PreferencesMessage::SetProvider(2))));
    assert!(matches!(Choice::Model.message(3),
        Message::Preferences(PreferencesMessage::SetModelIdx(3))));
    assert!(matches!(Input::ApiBase.message("b".to_string()),
        Message::Preferences(PreferencesMessage::SetApiBase(s)) if s == "b"));
    assert!(matches!(Input::ApiKey.message("k".to_string()),
        Message::Preferences(PreferencesMessage::SetApiKey(s)) if s == "k"));
}

#[test]
fn the_menu_of_a_navigation_item() {
    let items = app().nav_context_menu(5);
    let seen: Vec<(Label, &str, u16, NavMenuAction)> =
        items.iter().map(|i| (i.label, i.icon.as_str(), i.icon_size, i.action)).collect();
    assert_eq!(
        seen,
        vec![
            (Label::Rename, "edit-symbolic", 14, NavMenuAction::Rename(5)),
            (Label::Icon, "face-smile-big-symbolic", 14, NavMenuAction::SetIcon(5)),
            (Label::Export, "share-symbolic", 18, NavMenuAction::Export(5)),
            (Label::Delete, "user-trash-full-symbolic", 14, NavMenuAction::Delete(5)),
        ]
    );
}

#[test]
fn events_and_their_sources() {
    let app = app();
    assert_eq!(
        app.subscription(),
        vec![Source::Keyboard, Source::AppConfig, Source::ThemeMode, Source::Content]
    );
    assert!(matches!(window_event_message(WindowEvent::KeyPressed(vec![true])),
        Some(Message::Application(ApplicationAction::Key(m))) if m == vec![true]));
    assert!(matches!(
        window_event_message(WindowEvent::ModifiersChanged(Modifiers { bits: 3 })),
        Some(Message::Application(ApplicationAction::Modifiers(m))) if m.bits == 3));
    assert!(window_event_message(WindowEvent::Other).is_none());
    for errors in [vec![], vec!["bad".to_string()]] {
        let update = || ConfigUpdate { keys: vec!["k".to_string()], errors: errors.clone() };
        assert!(matches!(Report::AppConfig(update()).message(),
            Some(Message::Application(ApplicationAction::SystemThemeModeChange))));
        assert!(matches!(Report::ThemeMode(update()).message(),
            Some(Message::Application(ApplicationAction::SystemThemeModeChange))));
    }
    assert!(matches!(Report::Content(content::Message::Page(4)).message(),
        Some(Message::Content(content::Message::Page(4)))));
    assert!(matches!(Report::Keyboard(WindowEvent::KeyPressed(vec![])).message(),
        Some(Message::Application(ApplicationAction::Key(m))) if m.is_empty()));
    assert!(Report::Keyboard(WindowEvent::Other).message().is_none());
    assert!(app.nav_model().unwrap().items.is_empty());
}

#[test]
fn pages_of_the_drawer_send_messages() {
    assert!(matches!(DrawerEvent::Link("https://a".to_string()).message(),
        Message::Open(url) if url == "https://a"));
    assert!(matches!(DrawerEvent::Details(details::Message::Page(7)).message(),
        Message::Details(details::Message::Page(7))));
}

#[test]
fn about_the_application() {
    let about = about();
    assert_eq!(APP_ID, "dev.edfloreshz.Tasks");
    assert_eq!(about.icon, APP_ID);
    assert_eq!(about.name, Label::Tasks);
    assert_eq!(about.version, "0.2.0");
    assert_eq!(about.license, "GPL-3.0-only");
    assert_eq!(about.links[1].0, Label::Support);
    assert_eq!(about.links[1].1, "https://github.com/cosmic-utils/tasks/issues");
    assert_eq!(about.developers.len(), 1);
}
