//! What the application starts with, what it shows, and what its texts, its navigation bar and
//! the order of its work come to.

use vstd::prelude::*;

use crate::actions::{ApplicationActionView, ContextPage, NavMenuAction};
use crate::app::FlagsView;
use crate::config::AppTheme;
use crate::content;
use crate::details;
use crate::effects;
use crate::laws;
use crate::message::{CommandView, EventView, JobView, MessageView, PreferencesMessageView};
use crate::model::TasksView;
use crate::nav::{Entity, NavItemView, NavView};
use crate::preferences;
use crate::preferences::{PreferencesView, StoredKeyView};
use crate::runtime;
use crate::runtime::RuntimeView;
use crate::storage::ListView;
use crate::text;
use crate::ui;
use crate::ui::{
    ButtonView, CaptionView, Choice, DrawerBodyView, DrawerEvent, Input, Label, Report, RowView,
    WindowEvent,
};

verus! {

// Texts.

/// Where a text begins once leading white space is gone.
proof fn lemma_start_cut(s: Seq<char>) -> (i: int)
    ensures
        0 <= i <= s.len(),
        text::trim_start(s) == s.skip(i),
        forall|k: int| 0 <= k < i ==> text::white_space(#[trigger] s[k]),
        i < s.len() ==> !text::white_space(s[i]),
    decreases s.len(),
{
    if s.len() > 0 && text::white_space(s[0]) {
        let rest = s.drop_first();
        let i = lemma_start_cut(rest) + 1;
        assert(rest.skip(i - 1) =~= s.skip(i));
        assert forall|k: int| 0 <= k < i implies text::white_space(#[trigger] s[k]) by {
            if k > 0 {
                assert(rest[k - 1] == s[k]);
            }
        }
        i
    } else {
        assert(s.skip(0) =~= s);
        0
    }
}

/// Where a text ends once trailing white space is gone.
proof fn lemma_end_cut(s: Seq<char>) -> (j: int)
    ensures
        0 <= j <= s.len(),
        text::trim_end(s) == s.take(j),
        forall|k: int| j <= k < s.len() ==> text::white_space(#[trigger] s[k]),
        j > 0 ==> !text::white_space(s[j - 1]),
    decreases s.len(),
{
    if s.len() > 0 && text::white_space(s.last()) {
        let rest = s.drop_last();
        let j = lemma_end_cut(rest);
        assert(rest.take(j) =~= s.take(j));
        assert forall|k: int| j <= k < s.len() implies text::white_space(#[trigger] s[k]) by {
            if k < rest.len() {
                assert(rest[k] == s[k]);
            }
        }
        j
    } else {
        assert(s.take(s.len() as int) =~= s);
        s.len() as int
    }
}

/// Trimming cuts white space off both ends, all of it and nothing else.
pub proof fn law_trim_cuts(s: Seq<char>) -> (cut: (int, int))
    ensures
        0 <= cut.0 <= cut.1 <= s.len(),
        text::trimmed(s) == s.subrange(cut.0, cut.1),
        forall|k: int| 0 <= k < cut.0 ==> text::white_space(#[trigger] s[k]),
        forall|k: int| cut.1 <= k < s.len() ==> text::white_space(#[trigger] s[k]),
        cut.0 < cut.1 ==> !text::white_space(s[cut.0]) && !text::white_space(s[cut.1 - 1]),
{
    let i = lemma_start_cut(s);
    let rest = s.skip(i);
    let j = lemma_end_cut(rest);
    assert(rest.take(j) =~= s.subrange(i, i + j));
    assert forall|k: int| i + j <= k < s.len() implies text::white_space(#[trigger] s[k]) by {
        assert(rest[k - i] == s[k]);
    }
    if j > 0 {
        assert(rest[j - 1] == s[i + j - 1]);
    }
    (i, i + j)
}

/// A key has something in it besides white space exactly if something is left of it.
pub proof fn law_blank(s: Seq<char>)
    ensures
        text::trimmed(s).len() == 0 <==> forall|k: int|
            0 <= k < s.len() ==> text::white_space(#[trigger] s[k]),
{
    let (i, j) = law_trim_cuts(s);
    if i < j {
        assert(!text::white_space(s[i]));
    } else {
        assert forall|k: int| 0 <= k < s.len() implies text::white_space(#[trigger] s[k]) by {
            if k >= i {
                assert(j <= k);
            }
        }
    }
}

/// Stripping cuts one character off the end, as often as it stands there, and nothing else.
pub proof fn law_strip_cuts(s: Seq<char>, c: char) -> (j: int)
    ensures
        0 <= j <= s.len(),
        text::strip_end(s, c) == s.take(j),
        forall|k: int| j <= k < s.len() ==> #[trigger] s[k] == c,
        j > 0 ==> s[j - 1] != c,
    decreases s.len(),
{
    if s.len() > 0 && s.last() == c {
        let rest = s.drop_last();
        let j = law_strip_cuts(rest, c);
        assert(rest.take(j) =~= s.take(j));
        assert forall|k: int| j <= k < s.len() implies #[trigger] s[k] == c by {
            if k < rest.len() {
                assert(rest[k] == s[k]);
            }
        }
        j
    } else {
        assert(s.take(s.len() as int) =~= s);
        s.len() as int
    }
}

/// The address of the models is that of the service without slashes at its end, followed by the
/// path of the models.
pub proof fn law_models_address(base: Seq<char>) -> (j: int)
    ensures
        0 <= j <= base.len(),
        preferences::models_url(base) == base.take(j) + "/v1/models"@,
        forall|k: int| j <= k < base.len() ==> #[trigger] base[k] == '/',
        j > 0 ==> base[j - 1] != '/',
{
    law_strip_cuts(base, '/')
}

/// A prefix is as long as it is asked to be, if the text is, and else the text.
pub proof fn law_prefix(s: Seq<char>, n: int)
    requires
        0 <= n,
    ensures
        text::prefix(s, n).len() == (if n < s.len() {
            n
        } else {
            s.len() as int
        }),
        forall|k: int|
            0 <= k < text::prefix(s, n).len() ==> #[trigger] text::prefix(s, n)[k] == s[k],
{
}

/// The number that decimal digits stand for.
pub open spec fn number(s: Seq<char>) -> int
    decreases s.len(),
{
    if s.len() == 0 {
        0
    } else {
        number(s.drop_last()) * 10 + (s.last() as int - '0' as int)
    }
}

/// A number in decimal stands for that number, is made of digits, and begins with a zero only
/// if it is zero.
pub proof fn law_decimal(n: nat)
    ensures
        number(text::decimal(n)) == n,
        text::decimal(n).len() > 0,
        forall|k: int|
            0 <= k < text::decimal(n).len() ==> '0' <= #[trigger] text::decimal(n)[k] <= '9',
        text::decimal(n)[0] == '0' <==> n == 0,
    decreases n,
{
    let s = text::decimal(n);
    if n < 10 {
        assert(s.drop_last() =~= Seq::<char>::empty());
        assert(number(s.drop_last()) == 0);
    } else {
        law_decimal(n / 10);
        assert(s.drop_last() =~= text::decimal(n / 10));
        assert(s[0] == text::decimal(n / 10)[0]);
        assert forall|k: int| 0 <= k < s.len() implies '0' <= #[trigger] s[k] <= '9' by {
            if k < s.len() - 1 {
                assert(s[k] == text::decimal(n / 10)[k]);
            }
        }
    }
}

// The start.

/// At the start there are no lists, no dialogs and no title; the settings are the page of the
/// context drawer; the themes are offered in their order; and the rest is what was given.
pub proof fn law_first_state(flags: FlagsView)
    ensures
        ({
            let t = flags.tasks();
            &&& t.nav_model.items.len() == 0
            &&& t.nav_model.active is None
            &&& t.nav_model.next == 0
            &&& t.dialog_pages.len() == 0
            &&& t.window_title is None
            &&& t.context_page == ContextPage::Settings
            &&& t.show_context == flags.show_context
            &&& t.modifiers.bits == 0
            &&& t.app_themes.len() == 3
            &&& t.app_themes[0] == flags.match_desktop_label
            &&& t.app_themes[1] == flags.dark_label
            &&& t.app_themes[2] == flags.light_label
            &&& t.details == flags.details
            &&& t.config_handler == flags.config_handler
            &&& t.config == flags.config
            &&& t.tasks_label == flags.tasks_label
            &&& t.key_binds == flags.key_binds
            &&& t.dialog_text_input == flags.dialog_text_input
            &&& t.main_window == flags.main_window
        }),
{
}

/// At the start the lists are fetched, the main window, where there is one, gets the name of the
/// application for its title, and the navigation bar is adapted.
pub proof fn law_first_jobs(flags: FlagsView)
    ensures
        ({
            let jobs = flags.jobs();
            &&& jobs[0] == JobView::Perform(CommandView::FetchLists)
            &&& jobs.last() == JobView::Perform(CommandView::ToggleNavBarCondensed)
            &&& flags.main_window is None ==> jobs.len() == 2
            &&& flags.main_window matches Some(window) ==> {
                &&& jobs.len() == 3
                &&& jobs[1] == JobView::TitleWindow(window, flags.tasks_label)
            }
        }),
{
}

/// A name that stands nowhere is not found.
proof fn lemma_index_none(options: Seq<Seq<char>>, name: Seq<char>, i: int)
    requires
        0 <= i,
        forall|k: int| 0 <= k < options.len() ==> #[trigger] options[k] != name,
    ensures
        preferences::index_from(options, name, i) is None,
    decreases options.len() - i,
{
    if i < options.len() {
        lemma_index_none(options, name, i + 1);
    }
}

/// The options that are offered at the start, and that no test is under way or was made.
pub proof fn law_offered(flags: FlagsView)
    ensures
        ({
            let p = flags.tasks().preferences;
            &&& p.provider_options == seq!["OpenAI"@]
            &&& p.model_options == seq![
                "gpt-4o-mini"@,
                "gpt-4o"@,
                "gpt-4.1"@,
                "gpt-5-mini"@,
                "gpt-5"@,
                "o4-mini"@,
                "o3-mini-high"@,
            ]
            &&& p.selected_provider == 0
            &&& !p.testing
            &&& p.test_status is None
        }),
{
    let options = preferences::provider_options();
    let configured = flags.config.llm_provider;
    let name = if configured.len() == 0 {
        "OpenAI"@
    } else {
        configured
    };
    if options[0] != name {
        assert forall|k: int| 0 <= k < options.len() implies #[trigger] options[k] != name by {}
        lemma_index_none(options, name, 0);
    }
}

/// The model that is configured is chosen at the start, wherever it stands among those that are
/// offered; the first one where none is configured or the configured one is not offered.
pub proof fn law_configured_model(flags: FlagsView)
    ensures
        ({
            let p = flags.tasks().preferences;
            let configured = flags.config.llm_model;
            &&& forall|i: int|
                0 <= i < p.model_options.len() && configured == #[trigger] p.model_options[i]
                    ==> p.selected_model == i
            &&& configured.len() == 0 ==> p.selected_model == 0
            &&& (forall|i: int|
                0 <= i < p.model_options.len() ==> configured != #[trigger] p.model_options[i])
                ==> p.selected_model == 0
        }),
{
    let models = preferences::model_options();
    let configured = flags.config.llm_model;
    reveal_strlit("gpt-4o-mini");
    reveal_strlit("gpt-4o");
    reveal_strlit("gpt-4.1");
    reveal_strlit("gpt-5-mini");
    reveal_strlit("gpt-5");
    reveal_strlit("o4-mini");
    reveal_strlit("o3-mini-high");
    let p = flags.tasks().preferences;
    assert forall|i: int|
        0 <= i < p.model_options.len() && configured == #[trigger] p.model_options[i] implies
        p.selected_model == i by {
        assert(models[i].len() > 0);
        assert forall|j: int| 0 <= j < i implies #[trigger] models[j] != models[i] by {
            laws::lemma_models_distinct(j, i);
        }
        laws::lemma_index_from(models, i, 0);
    }
    if configured.len() == 0 {
        laws::lemma_index_from(models, 0, 0);
    } else if forall|i: int| 0 <= i < models.len() ==> configured != #[trigger] models[i] {
        lemma_index_none(models, configured, 0);
    }
}

/// The address at the start is the configured one, or a default in place of an empty one. The
/// key is that of the key store, even an empty one; where the key store holds none, it is that
/// of the environment; and where the key store cannot be reached, there is none.
pub proof fn law_configured_service(flags: FlagsView)
    ensures
        ({
            let p = flags.tasks().preferences;
            &&& flags.config.llm_api_base.len() > 0 ==> p.api_base == flags.config.llm_api_base
            &&& flags.config.llm_api_base.len() == 0 ==> p.api_base == "https://api.openai.com"@
            &&& flags.stored_key matches StoredKeyView::Password(key) ==> p.api_key == key
            &&& flags.stored_key is NoPassword ==> p.api_key == (match flags.env_key {
                Some(key) => key,
                None => Seq::empty(),
            })
            &&& flags.stored_key is NoEntry ==> p.api_key.len() == 0
        }),
{
}

/// The preferences that are loaded are those of the start.
pub proof fn law_loaded(flags: FlagsView)
    ensures
        PreferencesView::initial(flags.config, flags.stored_key, flags.env_key)
            == flags.tasks().preferences,
{
}

// The navigation bar.

/// The item with a name is the first that has it, and its list is the one behind it.
pub proof fn law_found(nav: NavView, i: int, id: Entity)
    requires
        0 <= i < nav.items.len(),
        nav.items[i].id == id,
        forall|k: int| 0 <= k < i ==> (#[trigger] nav.items[k]).id != id,
    ensures
        nav.has(id),
        nav.position(id) == i,
        nav.data(id) == Some(nav.items[i].list),
        nav.resolve(Some(id)) == Some(nav.items[i].list),
        nav.active == Some(id) ==> nav.resolve(None) == Some(nav.items[i].list),
        nav.target(Some(id)) == Some(id),
        nav.target(None) == nav.active,
{
    assert(nav.found_at(i, id));
    nav.lemma_found_at(i, id);
}

/// Without an item of that name nothing is found, and nothing can be changed or made active.
pub proof fn law_not_found(nav: NavView, id: Entity, list: ListView)
    requires
        forall|k: int| 0 <= k < nav.items.len() ==> (#[trigger] nav.items[k]).id != id,
    ensures
        !nav.has(id),
        nav.data(id) is None,
        nav.resolve(Some(id)) is None,
        nav.activated(id) == nav,
        nav.with_list(id, list) == nav,
{
    if nav.has(id) {
        assert(nav.found_at(nav.position(id), id));
    }
}

/// A change of one item, at `i`, changes that one alone, and only the part that is meant.
pub proof fn law_change_item(
    nav: NavView,
    i: int,
    list: ListView,
    label: Seq<char>,
    icon: Seq<char>,
)
    requires
        nav.wf(),
        0 <= i < nav.items.len(),
    ensures
        ({
            let item = nav.items[i];
            let active = NavView { active: Some(item.id), ..nav };
            &&& nav.activated(item.id) == active
            &&& nav.with_list(item.id, list) == (NavView {
                items: nav.items.update(i, NavItemView { list, ..item }),
                ..nav
            })
            &&& active.with_active_text(label) == (NavView {
                items: nav.items.update(i, NavItemView { text: label, ..item }),
                ..active
            })
            &&& active.with_active_icon(icon) == (NavView {
                items: nav.items.update(i, NavItemView { icon, ..item }),
                ..active
            })
        }),
{
    nav.lemma_found(i);
    nav.lemma_activated(nav.items[i].id);
    let active = NavView { active: Some(nav.items[i].id), ..nav };
    assert(active.wf());
    active.lemma_found(i);
}

/// Where no item is active, nothing on the active item can be changed.
pub proof fn law_none_active(nav: NavView, label: Seq<char>, icon: Seq<char>)
    requires
        nav.active is None,
    ensures
        nav.with_active_text(label) == nav,
        nav.with_active_icon(icon) == nav,
        nav.without_active() == nav,
        nav.resolve(None) is None,
{
}

// The order of the work.

/// A step does the first job and no other: what the job leaves stands before the jobs that are
/// left, which stay as they are.
pub proof fn law_step(r: RuntimeView)
    requires
        r.agenda.len() > 0,
    ensures
        ({
            let (t, jobs) = r.tasks.after_job(r.agenda[0]);
            &&& r.stepped().tasks == t
            &&& r.stepped().agenda == jobs + r.agenda.skip(1)
        }),
{
    assert(r.agenda.drop_first() =~= r.agenda.skip(1));
}

/// A command is handed out as it is, and doing it changes nothing here; a title is handed out
/// and remembered; no other job hands anything out.
pub proof fn law_handed_out(
    s: TasksView,
    command: CommandView,
    window: u64,
    title: Seq<char>,
    event: EventView,
    wish: content::OutputView,
    other: details::OutputView,
)
    ensures
        runtime::job_command(JobView::Perform(command)) == Some(command),
        s.after_job(JobView::Perform(command)) == (s, Seq::<JobView>::empty()),
        runtime::job_command(JobView::TitleWindow(window, title)) == Some(
            CommandView::SetWindowTitle(window, title),
        ),
        s.after_job(JobView::TitleWindow(window, title)) == (
            TasksView { window_title: Some(title), ..s },
            Seq::<JobView>::empty(),
        ),
        runtime::job_command(JobView::Handle(event)) is None,
        runtime::job_command(JobView::ServeContent(wish)) is None,
        runtime::job_command(JobView::ServeDetails(other)) is None,
        runtime::job_command(JobView::RemoveActiveItem) is None,
{
}

/// A step can be taken wherever there is a job, unless it is an event that is refused.
pub proof fn law_ready(r: RuntimeView)
    ensures
        r.ready() <==> r.agenda.len() > 0 && (r.agenda[0] matches JobView::Handle(event)
            ==> r.tasks.admits(event)),
{
}

// What is shown.

/// The settings show, of every state, the theme, the provider, the model, the address and the
/// key that are in it, and let each be changed.
pub proof fn law_settings(s: TasksView)
    ensures
        ({
            let page = s.settings();
            let looks = page.sections[0];
            let ai = page.sections[1];
            let p = s.preferences;
            &&& page.spacing == 16
            &&& page.sections.len() == 2
            &&& looks.title == CaptionView::Localized(Label::Appearance)
            &&& looks.rows.len() == 1
            &&& looks.rows[0] == (RowView::Dropdown {
                caption: CaptionView::Localized(Label::Theme),
                options: s.app_themes,
                selected: match s.config.app_theme {
                    AppTheme::MatchDesktop => 0,
                    AppTheme::Dark => 1,
                    AppTheme::Light => 2,
                },
                choice: Choice::Theme,
            })
            &&& ai.title == CaptionView::Literal("AI"@)
            &&& ai.rows.len() == 6
            &&& ai.rows[0] == (RowView::Dropdown {
                caption: CaptionView::Literal("Provider"@),
                options: p.provider_options,
                selected: p.selected_provider,
                choice: Choice::Provider,
            })
            &&& ai.rows[1] == (RowView::Dropdown {
                caption: CaptionView::Literal("Model"@),
                options: p.model_options,
                selected: p.selected_model,
                choice: Choice::Model,
            })
            &&& ai.rows[2] == (RowView::TextInput {
                caption: CaptionView::Literal("API Base URL"@),
                placeholder: "https://api.openai.com"@,
                value: p.api_base,
                width: Some(420),
                input: Input::ApiBase,
            })
            &&& ai.rows[3] == (RowView::TextInput {
                caption: CaptionView::Literal("API Key"@),
                placeholder: "••••••••"@,
                value: p.api_key,
                width: None,
                input: Input::ApiKey,
            })
        }),
{
}

/// The settings can always be saved, and the connection tested whenever no test is under way.
/// Below, they say that a test is under way, or else what came of the last save or test.
pub proof fn law_settings_buttons(s: TasksView)
    ensures
        ({
            let rows = s.settings().sections[1].rows;
            let p = s.preferences;
            &&& rows[4] matches RowView::Buttons { buttons, spacing } && {
                &&& spacing == 8
                &&& buttons.len() == 2
                &&& buttons[0].text == "Test Connection"@
                &&& p.testing ==> buttons[0].on_press is None
                &&& !p.testing ==> buttons[0].on_press == Some(
                    MessageView::Preferences(PreferencesMessageView::Test),
                )
                &&& buttons[1] == (ButtonView {
                    text: "Save"@,
                    on_press: Some(MessageView::Preferences(PreferencesMessageView::Save)),
                })
            }
            &&& rows[5] matches RowView::Text(status) && {
                &&& p.testing ==> status == "Testing…"@
                &&& !p.testing && p.test_status is Some ==> Some(status) == p.test_status
                &&& !p.testing && p.test_status is None ==> status == ""@
            }
        }),
{
}

/// What is chosen in the settings is what they show then.
pub proof fn law_choice_is_shown(s: TasksView, choice: Choice, index: int)
    requires
        choice == Choice::Theme ==> s.config_handler && 0 <= index < 3,
    ensures
        ({
            let page = effects::sent(s, choice.sends(index)).0.settings();
            let row = match choice {
                Choice::Theme => page.sections[0].rows[0],
                Choice::Provider => page.sections[1].rows[0],
                Choice::Model => page.sections[1].rows[1],
            };
            row matches RowView::Dropdown { selected, .. } && selected == index
        }),
{
}

/// What is typed into the settings is what they show then.
pub proof fn law_input_is_shown(s: TasksView, input: Input, typed: Seq<char>)
    ensures
        ({
            let page = effects::sent(s, input.sends(typed)).0.settings();
            let row = match input {
                Input::ApiBase => page.sections[1].rows[2],
                Input::ApiKey => page.sections[1].rows[3],
            };
            row matches RowView::TextInput { value, .. } && value == typed
        }),
{
}

/// The controls of the settings send their own message, with the place or the text as it is.
pub proof fn law_controls(index: int, typed: Seq<char>)
    ensures
        Choice::Theme.sends(index) == MessageView::Application(
            ApplicationActionView::AppTheme(index),
        ),
        Choice::Provider.sends(index) == MessageView::Preferences(
            PreferencesMessageView::SetProvider(index),
        ),
        Choice::Model.sends(index) == MessageView::Preferences(
            PreferencesMessageView::SetModelIdx(index),
        ),
        Input::ApiBase.sends(typed) == MessageView::Preferences(
            PreferencesMessageView::SetApiBase(typed),
        ),
        Input::ApiKey.sends(typed) == MessageView::Preferences(
            PreferencesMessageView::SetApiKey(typed),
        ),
{
}

/// The context drawer is there exactly while it is open. It shows the page that is asked for,
/// under its title, and its close button toggles it.
pub proof fn law_context_drawer(s: TasksView)
    ensures
        s.context_drawer() is Some <==> s.show_context,
        s.context_drawer() matches Some(drawer) ==> {
            &&& drawer.title == s.context_page
            &&& drawer.on_close == MessageView::Application(
                ApplicationActionView::ToggleContextDrawer,
            )
            &&& drawer.body == (match s.context_page {
                ContextPage::About => DrawerBodyView::About(ui::about_page()),
                ContextPage::Settings => DrawerBodyView::Settings(s.settings()),
                ContextPage::TaskDetails => DrawerBodyView::TaskDetails(s.details),
            })
        },
{
}

/// A drawer that is closed by its button, or by the escape key with no dialog open, is gone.
pub proof fn law_drawer_closes(s: TasksView)
    requires
        s.show_context,
    ensures
        s.context_drawer() matches Some(drawer) && effects::sent(
            s,
            drawer.on_close,
        ).0.context_drawer() is None,
        s.dialog_pages.len() == 0 ==> s.handle(EventView::Escape).0.context_drawer() is None,
{
}

/// The details of a task that were asked for, while they were not on show, are what the drawer
/// shows.
pub proof fn law_details_are_shown(s: TasksView, task: crate::storage::TaskView)
    requires
        !s.show_context || s.context_page != ContextPage::TaskDetails,
    ensures
        ({
            let t = s.after_job(
                JobView::ServeContent(content::OutputView::OpenTaskDetails(task)),
            ).0;
            &&& t.context_drawer() matches Some(drawer)
            &&& drawer.body matches DrawerBodyView::TaskDetails(shown)
            &&& shown.task == task
            &&& shown.text_editor_content == task.notes
        }),
{
}

/// The menu of an item has four entries, each of which acts on that item.
pub proof fn law_nav_menu(id: Entity)
    ensures
        ({
            let items = ui::nav_menu_items(id);
            let entry = |k: int, label: Label, icon: Seq<char>, size: u16, action: NavMenuAction|
                {
                    &&& items[k].label == label
                    &&& items[k].icon == icon
                    &&& items[k].icon_size == size
                    &&& items[k].action == action
                };
            &&& items.len() == 4
            &&& entry(0, Label::Rename, "edit-symbolic"@, 14, NavMenuAction::Rename(id))
            &&& entry(1, Label::Icon, "face-smile-big-symbolic"@, 14, NavMenuAction::SetIcon(id))
            &&& entry(2, Label::Export, "share-symbolic"@, 18, NavMenuAction::Export(id))
            &&& entry(3, Label::Delete, "user-trash-full-symbolic"@, 14, NavMenuAction::Delete(id))
        }),
{
}

/// What the about page says.
pub proof fn law_about_page()
    ensures
        ({
            let page = ui::about_page();
            &&& page.name == Label::Tasks
            &&& page.icon == "dev.edfloreshz.Tasks"@
            &&& page.version == "0.2.0"@
            &&& page.author == "Eduardo Flores"@
            &&& page.license == "GPL-3.0-only"@
            &&& page.links.len() == 3
            &&& page.links[0] == (Label::Repository, "https://github.com/cosmic-utils/tasks"@)
            &&& page.links[1] == (Label::Support, "https://github.com/cosmic-utils/tasks/issues"@)
            &&& page.links[2] == (Label::Website, "https://tasks.edfloreshz.dev"@)
            &&& page.developers.len() == 1
            &&& page.developers[0] == ("Eduardo Flores"@, "edfloreshz@proton.me"@)
        }),
{
}

/// A link opens its address, whichever it is; the messages of the pages are theirs as they are;
/// a key that was pressed and the modifiers that are held are told as they are, other events of
/// a window not at all; and a change of the configuration or of the theme mode is one of the
/// theme, whatever it holds.
pub proof fn law_reports(
    url: String,
    message: details::Message,
    told: content::Message,
    pressed: Vec<bool>,
    modifiers: crate::actions::Modifiers,
    update: ui::ConfigUpdate,
)
    ensures
        DrawerEvent::Link(url).sends() == MessageView::Open(url@),
        DrawerEvent::Details(message).sends() == MessageView::Details(message),
        Report::Content(told).sends() == Some(MessageView::Content(told@)),
        Report::Keyboard(WindowEvent::KeyPressed(pressed)).sends() == Some(
            MessageView::Application(ApplicationActionView::Key(pressed@)),
        ),
        Report::Keyboard(WindowEvent::ModifiersChanged(modifiers)).sends() == Some(
            MessageView::Application(ApplicationActionView::Modifiers(modifiers)),
        ),
        Report::Keyboard(WindowEvent::Other).sends() is None,
        Report::AppConfig(update).sends() == Some(
            MessageView::Application(ApplicationActionView::SystemThemeModeChange),
        ),
        Report::ThemeMode(update).sends() == Report::AppConfig(update).sends(),
        ui::window_event_sends(WindowEvent::KeyPressed(pressed)) == Report::Keyboard(
            WindowEvent::KeyPressed(pressed),
        ).sends(),
        ui::window_event_sends(WindowEvent::ModifiersChanged(modifiers)) == Report::Keyboard(
            WindowEvent::ModifiersChanged(modifiers),
        ).sends(),
        ui::window_event_sends(WindowEvent::Other) is None,
{
}

} // verus!
