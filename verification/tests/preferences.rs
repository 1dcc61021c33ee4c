use tasks::app::{Flags, Tasks};
use tasks::actions::ApplicationAction;
use tasks::config::{AppTheme, ConfigEntry, TasksConfig};
use tasks::details::Details;
use tasks::message::{Command, Event, Job, Message, PreferencesMessage};
use tasks::preferences::{outcome_message, Preferences, StoredKey, TestOutcome};
use tasks::storage::Task;

fn config(provider: &str, model: &str, base: &str) -> TasksConfig {
    TasksConfig {
        app_theme: AppTheme::MatchDesktop,
        hide_completed: false,
        llm_provider: provider.to_string(),
        llm_model: model.to_string(),
        llm_api_base: base.to_string(),
    }
}

fn app(config_handler: bool, stored: &str) -> Tasks {
    Tasks::init(Flags {
        config_handler,
        config: config("", "", ""),
        details: Details {
            task: Task { id: 0, notes: String::new(), priority: 0 },
            text_editor_content: String::new(),
            priorities: 3,
            active_priority: None,
        },
        tasks_label: "Tasks".to_string(),
        match_desktop_label: "Match desktop".to_string(),
        dark_label: "Dark".to_string(),
        light_label: "Light".to_string(),
        show_context: false,
        key_binds: vec![],
        dialog_text_input: 77,
        main_window: Some(1),
        stored_key: StoredKey::Password(stored.to_string()),
        env_key: None,
    })
    .0
}

fn prefer(app: &mut Tasks, message: PreferencesMessage) -> Vec<Job> {
    app.update(Message::Preferences(message))
}

#[test]
fn defaults_where_nothing_is_configured() {
    let p = Preferences::load(&config("", "", ""), StoredKey::NoEntry, None);
    assert_eq!(p.provider_options, vec!["OpenAI"]);
    assert_eq!(
        p.model_options,
        vec!["gpt-4o-mini", "gpt-4o", "gpt-4.1", "gpt-5-mini", "gpt-5", "o4-mini", "o3-mini-high"]
    );
    assert_eq!((p.selected_provider, p.selected_model), (0, 0));
    assert_eq!(p.api_base, "https://api.openai.com");
    assert_eq!(p.api_key, "");
    assert!(!p.testing);
    assert!(p.test_status.is_none());
}

#[test]
fn configured_choices_are_found() {
    let p = Preferences::load(&config("OpenAI", "gpt-5", "https://x"), StoredKey::NoPassword, None);
    assert_eq!((p.selected_provider, p.selected_model), (0, 4));
    assert_eq!(p.api_base, "https://x");
}

#[test]
fn unknown_choices_fall_back_to_the_first() {
    let p = Preferences::load(&config("Acme", "llama", ""), StoredKey::NoEntry, None);
    assert_eq!((p.selected_provider, p.selected_model), (0, 0));
}

#[test]
fn key_comes_from_the_store_or_the_environment() {
    let c = config("", "", "");
    let env = || Some("env".to_string());
    assert_eq!(Preferences::load(&c, StoredKey::Password("s".to_string()), env()).api_key, "s");
    assert_eq!(Preferences::load(&c, StoredKey::NoPassword, env()).api_key, "env");
    assert_eq!(Preferences::load(&c, StoredKey::NoPassword, None).api_key, "");
    assert_eq!(Preferences::load(&c, StoredKey::NoEntry, env()).api_key, "");
}

#[test]
fn edits_change_one_field_each() {
    let mut a = app(true, "");
    assert!(prefer(&mut a, PreferencesMessage::SetProvider(3)).is_empty());
    assert!(prefer(&mut a, PreferencesMessage::SetModelIdx(2)).is_empty());
    assert!(prefer(&mut a, PreferencesMessage::SetApiBase("b".to_string())).is_empty());
    assert!(prefer(&mut a, PreferencesMessage::SetApiKey("k".to_string())).is_empty());
    assert_eq!(a.preferences.selected_provider, 3);
    assert_eq!(a.preferences.selected_model, 2);
    assert_eq!(a.preferences.api_base, "b");
    assert_eq!(a.preferences.api_key, "k");
}

#[test]
fn save_stores_the_choices_and_the_trimmed_key() {
    let mut a = app(true, "  sk-1\n");
    prefer(&mut a, PreferencesMessage::SetModelIdx(6));
    let jobs = prefer(&mut a, PreferencesMessage::Save);
    assert_eq!(jobs.len(), 4);
    assert!(matches!(&jobs[0],
        Job::Perform(Command::StoreConfig(ConfigEntry::LlmProvider(s))) if s == "OpenAI"));
    assert!(matches!(&jobs[1],
        Job::Perform(Command::StoreConfig(ConfigEntry::LlmModel(s))) if s == "o3-mini-high"));
    assert!(matches!(&jobs[2],
        Job::Perform(Command::StoreConfig(ConfigEntry::LlmApiBase(s)))
            if s == "https://api.openai.com"));
    assert!(matches!(&jobs[3], Job::Perform(Command::StoreKey(s)) if s == "sk-1"));
    assert_eq!(a.config.llm_provider, "OpenAI");
    assert_eq!(a.config.llm_model, "o3-mini-high");
    assert_eq!(a.config.llm_api_base, "https://api.openai.com");
    assert_eq!(a.preferences.test_status.as_deref(), Some("Saved."));
    assert_eq!(a.preferences.api_key, "  sk-1\n");
}

#[test]
fn save_without_a_store_keeps_the_configuration() {
    let mut a = app(false, "   ");
    let jobs = prefer(&mut a, PreferencesMessage::Save);
    assert_eq!(jobs.len(), 1);
    assert!(matches!(&jobs[0], Job::Perform(Command::StoreKey(s)) if s.is_empty()));
    assert_eq!(a.config.llm_model, "");
    assert_eq!(a.preferences.test_status.as_deref(), Some("Saved."));
}

#[test]
fn save_past_the_options_takes_the_defaults() {
    let mut a = app(true, "");
    prefer(&mut a, PreferencesMessage::SetProvider(9));
    prefer(&mut a, PreferencesMessage::SetModelIdx(7));
    prefer(&mut a, PreferencesMessage::Save);
    assert_eq!(a.config.llm_provider, "OpenAI");
    assert_eq!(a.config.llm_model, "gpt-4o-mini");
}

#[test]
fn what_is_saved_is_loaded() {
    for model in 0..7 {
        let mut a = app(true, " k ");
        prefer(&mut a, PreferencesMessage::SetModelIdx(model));
        prefer(&mut a, PreferencesMessage::SetApiBase("http://host/".to_string()));
        let mut jobs = prefer(&mut a, PreferencesMessage::Save);
        let key = match jobs.pop() {
            Some(Job::Perform(Command::StoreKey(key))) => key,
            _ => panic!("no key"),
        };
        let p = Preferences::load(&a.config, StoredKey::Password(key), None);
        assert_eq!(p.selected_model, model);
        assert_eq!(p.selected_provider, 0);
        assert_eq!(p.api_base, "http://host/");
        assert_eq!(p.api_key, "k");
    }
}

#[test]
fn an_empty_address_is_loaded_as_the_default() {
    let mut a = app(true, "");
    prefer(&mut a, PreferencesMessage::SetApiBase(String::new()));
    prefer(&mut a, PreferencesMessage::Save);
    assert_eq!(a.config.llm_api_base, "");
    let stored = StoredKey::Password(String::new());
    let p = Preferences::load(&a.config, stored, Some("env".to_string()));
    assert_eq!(p.api_base, "https://api.openai.com");
    assert_eq!(p.api_key, "");
}

#[test]
fn test_without_a_key_stays_here() {
    let mut a = app(true, " \t ");
    assert!(prefer(&mut a, PreferencesMessage::Test).is_empty());
    assert!(!a.preferences.testing);
    assert_eq!(a.preferences.test_status.as_deref(), Some("Provide an API key to test."));
}

#[test]
fn test_with_a_key_asks_for_the_models() {
    let mut a = app(true, " sk-2 ");
    prefer(&mut a, PreferencesMessage::SetApiBase("https://api.example//".to_string()));
    let jobs = prefer(&mut a, PreferencesMessage::Test);
    assert_eq!(jobs.len(), 1);
    match &jobs[0] {
        Job::Perform(Command::TestConnection { url, key, timeout_secs }) => {
            assert_eq!(url, "https://api.example/v1/models");
            assert_eq!(key, "sk-2");
            assert_eq!(*timeout_secs, 5);
        }
        _ => panic!("no test"),
    }
    assert!(a.preferences.testing);
    assert!(a.preferences.test_status.is_none());
    assert_eq!(a.preferences.status_text(), "Testing…");
    let outcome = TestOutcome::Response { status: 200, body: String::new() };
    assert!(a.handle(Event::ConnectionTested(outcome)).is_empty());
    assert!(!a.preferences.testing);
    assert_eq!(a.preferences.status_text(), "Success: API reachable");
}

#[test]
fn outcomes_of_a_test() {
    let text = |status: u16, body: &str| {
        outcome_message(&TestOutcome::Response { status, body: body.to_string() })
    };
    assert_eq!(text(200, "x"), "Success: API reachable");
    assert_eq!(text(299, ""), "Success: API reachable");
    assert_eq!(text(300, "moved"), "Failed: HTTP 300: moved");
    assert_eq!(text(199, ""), "Failed: HTTP 199: ");
    assert_eq!(text(401, "bad key"), "Failed: HTTP 401: bad key");
    assert_eq!(text(0, ""), "Failed: HTTP 0: ");
    assert_eq!(text(1000, ""), "Failed: HTTP 1000: ");
    assert_eq!(text(500, &"é".repeat(200)), format!("Failed: HTTP 500: {}", "é".repeat(160)));
    assert_eq!(
        outcome_message(&TestOutcome::ClientError("tls".to_string())),
        "Failed: client error: tls"
    );
    assert_eq!(
        outcome_message(&TestOutcome::RequestError("dns".to_string())),
        "Failed: request error: dns"
    );
}

#[test]
fn themes_are_stored_and_set() {
    let mut a = app(true, "");
    let jobs = a.update(Message::Application(ApplicationAction::AppTheme(1)));
    assert_eq!(jobs.len(), 1);
    assert!(matches!(&jobs[0],
        Job::Perform(Command::StoreConfig(ConfigEntry::AppTheme(AppTheme::Dark)))));
    assert_eq!(a.config.app_theme, AppTheme::Dark);
    let jobs = a.update(Message::Application(ApplicationAction::SystemThemeModeChange));
    assert_eq!(jobs.len(), 1);
    assert!(matches!(&jobs[0], Job::Perform(Command::SetTheme(AppTheme::Dark))));
    let mut b = app(false, "");
    assert!(b.update(Message::Application(ApplicationAction::AppTheme(2))).is_empty());
    assert_eq!(b.config.app_theme, AppTheme::MatchDesktop);
    for (i, theme) in [AppTheme::MatchDesktop, AppTheme::Dark, AppTheme::Light].iter().enumerate() {
        assert_eq!(AppTheme::from_index(i), *theme);
        assert_eq!(theme.index(), i);
    }
    assert_eq!(AppTheme::from_index(3), AppTheme::MatchDesktop);
}
