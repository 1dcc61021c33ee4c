//! The preferences for the language model service: what is offered and chosen, the key, and
//! the outcome of a connection test.

use vstd::prelude::*;

use crate::config::{ConfigView, TasksConfig};
use crate::text;
use crate::views;

verus! {

/// The provider that is taken where none is configured.
pub const DEFAULT_PROVIDER: &'static str = "OpenAI";

/// The model that is taken where none is configured.
pub const DEFAULT_MODEL: &'static str = "gpt-4o-mini";

/// The address that is taken where none is configured.
pub const DEFAULT_API_BASE: &'static str = "https://api.openai.com";

/// How many seconds a connection test may take.
pub const TEST_TIMEOUT_SECS: u64 = 5;

/// How much of a refusal's text is shown, in characters.
pub const SNIPPET_CHARS: usize = 160;

/// What the key store answered: there is no access to an entry, the entry holds no key, or
/// this key.
#[derive(Debug)]
pub enum StoredKey {
    NoEntry,
    NoPassword,
    Password(String),
}

#[verifier::ext_equal]
pub enum StoredKeyView {
    NoEntry,
    NoPassword,
    Password(Seq<char>),
}

impl View for StoredKey {
    type V = StoredKeyView;

    open spec fn view(&self) -> StoredKeyView {
        match self {
            StoredKey::NoEntry => StoredKeyView::NoEntry,
            StoredKey::NoPassword => StoredKeyView::NoPassword,
            StoredKey::Password(key) => StoredKeyView::Password(key@),
        }
    }
}

/// How a connection test ended: no client could be made, the request failed, or the service
/// answered.
#[derive(Debug)]
pub enum TestOutcome {
    ClientError(String),
    RequestError(String),
    Response { status: u16, body: String },
}

#[verifier::ext_equal]
pub enum TestOutcomeView {
    ClientError(Seq<char>),
    RequestError(Seq<char>),
    Response { status: u16, body: Seq<char> },
}

impl View for TestOutcome {
    type V = TestOutcomeView;

    open spec fn view(&self) -> TestOutcomeView {
        match self {
            TestOutcome::ClientError(error) => TestOutcomeView::ClientError(error@),
            TestOutcome::RequestError(error) => TestOutcomeView::RequestError(error@),
            TestOutcome::Response { status, body } => TestOutcomeView::Response {
                status: *status,
                body: body@,
            },
        }
    }
}

/// The preferences as they are being edited.
#[derive(Debug)]
pub struct Preferences {
    pub provider_options: Vec<String>,
    pub selected_provider: usize,
    pub model_options: Vec<String>,
    pub selected_model: usize,
    pub api_base: String,
    pub api_key: String,
    pub testing: bool,
    pub test_status: Option<String>,
}

#[verifier::ext_equal]
pub struct PreferencesView {
    pub provider_options: Seq<Seq<char>>,
    pub selected_provider: int,
    pub model_options: Seq<Seq<char>>,
    pub selected_model: int,
    pub api_base: Seq<char>,
    pub api_key: Seq<char>,
    pub testing: bool,
    pub test_status: Option<Seq<char>>,
}

impl View for Preferences {
    type V = PreferencesView;

    open spec fn view(&self) -> PreferencesView {
        PreferencesView {
            provider_options: views::seq_view(self.provider_options@),
            selected_provider: self.selected_provider as int,
            model_options: views::seq_view(self.model_options@),
            selected_model: self.selected_model as int,
            api_base: self.api_base@,
            api_key: self.api_key@,
            testing: self.testing,
            test_status: views::opt_view(self.test_status),
        }
    }
}

/// The providers that are offered.
pub open spec fn provider_options() -> Seq<Seq<char>> {
    seq!["OpenAI"@]
}

/// The models that are offered.
pub open spec fn model_options() -> Seq<Seq<char>> {
    seq![
        "gpt-4o-mini"@,
        "gpt-4o"@,
        "gpt-4.1"@,
        "gpt-5-mini"@,
        "gpt-5"@,
        "o4-mini"@,
        "o3-mini-high"@,
    ]
}

/// The first place of `name` among `options` from `i` on.
pub open spec fn index_from(options: Seq<Seq<char>>, name: Seq<char>, i: int) -> Option<int>
    decreases options.len() - i,
{
    if i >= options.len() {
        None
    } else if options[i] == name {
        Some(i)
    } else {
        index_from(options, name, i + 1)
    }
}

/// The place of a configured name among the options: the first, where it is not offered.
/// An empty name stands for `default`.
pub open spec fn configured_index(
    options: Seq<Seq<char>>,
    configured: Seq<char>,
    default: Seq<char>,
) -> int {
    let name = if configured.len() == 0 {
        default
    } else {
        configured
    };
    match index_from(options, name, 0) {
        Some(i) => i,
        None => 0,
    }
}

/// The option at a place, or `default` past the end.
pub open spec fn option_at(options: Seq<Seq<char>>, i: int, default: Seq<char>) -> Seq<char> {
    if 0 <= i < options.len() {
        options[i]
    } else {
        default
    }
}

/// The key at the start: that of the key store, else that of the environment where the key
/// store can be reached but holds none.
pub open spec fn initial_key(stored: StoredKeyView, env_key: Option<Seq<char>>) -> Seq<char> {
    match stored {
        StoredKeyView::Password(key) => key,
        StoredKeyView::NoPassword => match env_key {
            Some(key) => key,
            None => Seq::empty(),
        },
        StoredKeyView::NoEntry => Seq::empty(),
    }
}

/// The address that lists the models of the service at `base`.
pub open spec fn models_url(base: Seq<char>) -> Seq<char> {
    text::strip_end(base, '/') + "/v1/models"@
}

/// Whether an HTTP status reports success.
pub open spec fn success_status(status: u16) -> bool {
    200 <= status < 300
}

/// What is shown after a connection test.
pub open spec fn outcome_text(outcome: TestOutcomeView) -> Seq<char> {
    match outcome {
        TestOutcomeView::ClientError(error) => "Failed: client error: "@ + error,
        TestOutcomeView::RequestError(error) => "Failed: request error: "@ + error,
        TestOutcomeView::Response { status, body } => if success_status(status) {
            "Success: API reachable"@
        } else {
            "Failed: HTTP "@ + text::decimal(status as nat) + ": "@ + text::prefix(
                body,
                SNIPPET_CHARS as int,
            )
        },
    }
}

impl PreferencesView {
    /// The preferences at the start of the application.
    pub open spec fn initial(
        config: ConfigView,
        stored: StoredKeyView,
        env_key: Option<Seq<char>>,
    ) -> PreferencesView {
        PreferencesView {
            provider_options: provider_options(),
            selected_provider: configured_index(
                provider_options(),
                config.llm_provider,
                DEFAULT_PROVIDER@,
            ),
            model_options: model_options(),
            selected_model: configured_index(model_options(), config.llm_model, DEFAULT_MODEL@),
            api_base: if config.llm_api_base.len() == 0 {
                DEFAULT_API_BASE@
            } else {
                config.llm_api_base
            },
            api_key: initial_key(stored, env_key),
            testing: false,
            test_status: None,
        }
    }

    /// The provider that is chosen.
    pub open spec fn provider(self) -> Seq<char> {
        option_at(self.provider_options, self.selected_provider, DEFAULT_PROVIDER@)
    }

    /// The model that is chosen.
    pub open spec fn model(self) -> Seq<char> {
        option_at(self.model_options, self.selected_model, DEFAULT_MODEL@)
    }

    /// What the settings say about the connection test.
    pub open spec fn status_text(self) -> Seq<char> {
        if self.testing {
            "Testing…"@
        } else {
            match self.test_status {
                Some(status) => status,
                None => ""@,
            }
        }
    }
}

/// Whether an HTTP status reports success. Calls `reqwest::StatusCode::is_success` on the code
/// that `reqwest::StatusCode::from_u16` makes of the number. What is claimed: `from_u16` takes
/// the numbers from 100 to 999, and of those `is_success` holds of exactly 200 to 299.
#[verifier::external_body]
fn is_success(status: u16) -> (r: bool)
    ensures
        r == success_status(status),
{
    match reqwest::StatusCode::from_u16(status) {
        Ok(code) => code.is_success(),
        Err(_) => false,
    }
}

/// What is shown after a connection test.
pub fn outcome_message(outcome: &TestOutcome) -> (r: String)
    ensures
        r@ == outcome_text(outcome@),
{
    match outcome {
        TestOutcome::ClientError(error) => {
            "Failed: client error: ".to_owned().concat(error.as_str())
        },
        TestOutcome::RequestError(error) => {
            "Failed: request error: ".to_owned().concat(error.as_str())
        },
        TestOutcome::Response { status, body } => {
            if is_success(*status) {
                "Success: API reachable".to_owned()
            } else {
                let mut r: String = "Failed: HTTP ".to_owned();
                r.append(text::decimal_string(*status).as_str());
                r.append(": ");
                r.append(text::take_chars(body.as_str(), SNIPPET_CHARS).as_str());
                r
            }
        },
    }
}

/// The place of a configured name among the options: the first, where it is not offered.
fn find_configured(options: &Vec<String>, configured: &String, default: &str) -> (r: usize)
    ensures
        r == configured_index(views::seq_view(options@), configured@, default@),
{
    let name: String = if configured.as_str().is_empty() {
        default.to_owned()
    } else {
        configured.clone()
    };
    let ghost all = views::seq_view(options@);
    let mut i: usize = 0;
    while i < options.len()
        invariant
            i <= options.len(),
            all == views::seq_view(options@),
            name@ == (if configured@.len() == 0 {
                default@
            } else {
                configured@
            }),
            index_from(all, name@, 0) == index_from(all, name@, i as int),
        decreases options.len() - i,
    {
        assert(all[i as int] == options@[i as int]@);
        if options[i] == name {
            return i;
        }
        i = i + 1;
    }
    0
}

/// The option at a place, or `default` past the end.
fn choose_option(options: &Vec<String>, i: usize, default: &str) -> (r: String)
    ensures
        r@ == option_at(views::seq_view(options@), i as int, default@),
{
    if i < options.len() {
        assert(views::seq_view(options@)[i as int] == options@[i as int]@);
        options[i].clone()
    } else {
        default.to_owned()
    }
}

impl Preferences {
    /// The preferences at the start of the application.
    pub fn load(config: &TasksConfig, stored: StoredKey, env_key: Option<String>) -> (r:
        Preferences)
        ensures
            r@ == PreferencesView::initial(config@, stored@, views::opt_view(env_key)),
    {
        let mut providers: Vec<String> = Vec::new();
        providers.push("OpenAI".to_owned());
        assert(views::seq_view(providers@) =~= provider_options());
        let mut models: Vec<String> = Vec::new();
        models.push("gpt-4o-mini".to_owned());
        models.push("gpt-4o".to_owned());
        models.push("gpt-4.1".to_owned());
        models.push("gpt-5-mini".to_owned());
        models.push("gpt-5".to_owned());
        models.push("o4-mini".to_owned());
        models.push("o3-mini-high".to_owned());
        assert(views::seq_view(models@) =~= model_options());
        let selected_provider: usize = find_configured(
            &providers,
            &config.llm_provider,
            DEFAULT_PROVIDER,
        );
        let selected_model: usize = find_configured(&models, &config.llm_model, DEFAULT_MODEL);
        let api_base: String = if config.llm_api_base.as_str().is_empty() {
            DEFAULT_API_BASE.to_owned()
        } else {
            config.llm_api_base.clone()
        };
        let api_key: String = match stored {
            StoredKey::Password(key) => key,
            StoredKey::NoPassword => match env_key {
                Some(key) => key,
                None => String::new(),
            },
            StoredKey::NoEntry => String::new(),
        };
        Preferences {
            provider_options: providers,
            selected_provider,
            model_options: models,
            selected_model,
            api_base,
            api_key,
            testing: false,
            test_status: None,
        }
    }

    /// The provider that is chosen.
    pub fn provider(&self) -> (r: String)
        ensures
            r@ == self@.provider(),
    {
        choose_option(&self.provider_options, self.selected_provider, DEFAULT_PROVIDER)
    }

    /// The model that is chosen.
    pub fn model(&self) -> (r: String)
        ensures
            r@ == self@.model(),
    {
        choose_option(&self.model_options, self.selected_model, DEFAULT_MODEL)
    }

    /// The key without white space at its ends.
    pub fn trimmed_key(&self) -> (r: String)
        ensures
            r@ == text::trimmed(self@.api_key),
    {
        text::trim(self.api_key.as_str())
    }

    /// The address that lists the models of the service.
    pub fn models_url(&self) -> (r: String)
        ensures
            r@ == models_url(self@.api_base),
    {
        text::trim_end_matches(self.api_base.as_str(), '/').concat("/v1/models")
    }

    /// What the settings say about the connection test.
    pub fn status_text(&self) -> (r: String)
        ensures
            r@ == self@.status_text(),
    {
        if self.testing {
            "Testing…".to_owned()
        } else {
            match &self.test_status {
                Some(status) => status.clone(),
                None => "".to_owned(),
            }
        }
    }
}

} // verus!
