//! What the windows show, and which messages their controls send.

use vstd::prelude::*;

use crate::actions::{
    ApplicationAction, ApplicationActionView, ContextPage, Modifiers, NavMenuAction,
};
use crate::app::Tasks;
use crate::content;
use crate::details;
use crate::details::{Details, DetailsView};
use crate::dialog::DialogPage;
use crate::message::{Message, MessageView, PreferencesMessage, PreferencesMessageView};
use crate::model::TasksView;
use crate::nav::{Entity, NavModel};
use crate::views;

verus! {

/// The name of the application towards the desktop.
pub const APP_ID: &'static str = "dev.edfloreshz.Tasks";

/// The size of the icons in the navigation bar.
pub const NAV_ICON_SIZE: u16 = 16;

/// Texts that are shown in the language of the user.
#[derive(Debug, Clone, Copy, PartialEq, Eq, Structural)]
pub enum Label {
    Tasks,
    Appearance,
    Theme,
    Rename,
    Icon,
    Export,
    Delete,
    Repository,
    Support,
    Website,
}

/// A text beside a control or above a section.
#[derive(Debug)]
pub enum Caption {
    Localized(Label),
    Literal(String),
}

#[verifier::ext_equal]
pub enum CaptionView {
    Localized(Label),
    Literal(Seq<char>),
}

impl View for Caption {
    type V = CaptionView;

    open spec fn view(&self) -> CaptionView {
        match self {
            Caption::Localized(label) => CaptionView::Localized(*label),
            Caption::Literal(text) => CaptionView::Literal(text@),
        }
    }
}

/// The settings that are chosen from a list.
#[derive(Debug, Clone, Copy, PartialEq, Eq, Structural)]
pub enum Choice {
    Theme,
    Provider,
    Model,
}

impl Choice {
    /// The message that a choice from the list sends.
    pub open spec fn sends(self, index: int) -> MessageView {
        match self {
            Choice::Theme => MessageView::Application(ApplicationActionView::AppTheme(index)),
            Choice::Provider => MessageView::Preferences(
                PreferencesMessageView::SetProvider(index),
            ),
            Choice::Model => MessageView::Preferences(PreferencesMessageView::SetModelIdx(index)),
        }
    }

    /// The message that a choice from the list sends.
    pub fn message(self, index: usize) -> (r: Message)
        ensures
            r@ == self.sends(index as int),
    {
        match self {
            Choice::Theme => Message::Application(ApplicationAction::AppTheme(index)),
            Choice::Provider => Message::Preferences(PreferencesMessage::SetProvider(index)),
            Choice::Model => Message::Preferences(PreferencesMessage::SetModelIdx(index)),
        }
    }
}

/// The settings that are typed in.
#[derive(Debug, Clone, Copy, PartialEq, Eq, Structural)]
pub enum Input {
    ApiBase,
    ApiKey,
}

impl Input {
    /// The message that typing sends.
    pub open spec fn sends(self, text: Seq<char>) -> MessageView {
        match self {
            Input::ApiBase => MessageView::Preferences(PreferencesMessageView::SetApiBase(text)),
            Input::ApiKey => MessageView::Preferences(PreferencesMessageView::SetApiKey(text)),
        }
    }

    /// The message that typing sends.
    pub fn message(self, text: String) -> (r: Message)
        ensures
            r@ == self.sends(text@),
    {
        match self {
            Input::ApiBase => Message::Preferences(PreferencesMessage::SetApiBase(text)),
            Input::ApiKey => Message::Preferences(PreferencesMessage::SetApiKey(text)),
        }
    }
}

/// A button. It cannot be pressed while it has no message.
#[derive(Debug)]
pub struct Button {
    pub text: String,
    pub on_press: Option<Message>,
}

#[verifier::ext_equal]
pub struct ButtonView {
    pub text: Seq<char>,
    pub on_press: Option<MessageView>,
}

impl View for Button {
    type V = ButtonView;

    open spec fn view(&self) -> ButtonView {
        ButtonView { text: self.text@, on_press: views::opt_view(self.on_press) }
    }
}

/// A row of the settings. Widths and spacings are in pixels.
#[derive(Debug)]
pub enum Row {
    Dropdown { caption: Caption, options: Vec<String>, selected: usize, choice: Choice },
    TextInput {
        caption: Caption,
        placeholder: String,
        value: String,
        width: Option<u16>,
        input: Input,
    },
    Buttons { buttons: Vec<Button>, spacing: u16 },
    Text(String),
}

#[verifier::ext_equal]
pub enum RowView {
    Dropdown { caption: CaptionView, options: Seq<Seq<char>>, selected: int, choice: Choice },
    TextInput {
        caption: CaptionView,
        placeholder: Seq<char>,
        value: Seq<char>,
        width: Option<u16>,
        input: Input,
    },
    Buttons { buttons: Seq<ButtonView>, spacing: u16 },
    Text(Seq<char>),
}

impl View for Row {
    type V = RowView;

    open spec fn view(&self) -> RowView {
        match self {
            Row::Dropdown { caption, options, selected, choice } => RowView::Dropdown {
                caption: caption@,
                options: views::seq_view(options@),
                selected: *selected as int,
                choice: *choice,
            },
            Row::TextInput { caption, placeholder, value, width, input } => RowView::TextInput {
                caption: caption@,
                placeholder: placeholder@,
                value: value@,
                width: *width,
                input: *input,
            },
            Row::Buttons { buttons, spacing } => RowView::Buttons {
                buttons: views::seq_view(buttons@),
                spacing: *spacing,
            },
            Row::Text(text) => RowView::Text(text@),
        }
    }
}

/// A titled group of rows.
#[derive(Debug)]
pub struct Section {
    pub title: Caption,
    pub rows: Vec<Row>,
}

#[verifier::ext_equal]
pub struct SectionView {
    pub title: CaptionView,
    pub rows: Seq<RowView>,
}

impl View for Section {
    type V = SectionView;

    open spec fn view(&self) -> SectionView {
        SectionView { title: self.title@, rows: views::seq_view(self.rows@) }
    }
}

/// The settings page: its sections, and the space between them.
#[derive(Debug)]
pub struct Settings {
    pub sections: Vec<Section>,
    pub spacing: u16,
}

#[verifier::ext_equal]
pub struct SettingsView {
    pub sections: Seq<SectionView>,
    pub spacing: u16,
}

impl View for Settings {
    type V = SettingsView;

    open spec fn view(&self) -> SettingsView {
        SettingsView { sections: views::seq_view(self.sections@), spacing: self.spacing }
    }
}

/// Who made the application, and where to find it.
#[derive(Debug)]
pub struct About {
    pub name: Label,
    pub icon: String,
    pub version: String,
    pub author: String,
    pub license: String,
    pub links: Vec<(Label, String)>,
    pub developers: Vec<(String, String)>,
}

#[verifier::ext_equal]
pub struct AboutView {
    pub name: Label,
    pub icon: Seq<char>,
    pub version: Seq<char>,
    pub author: Seq<char>,
    pub license: Seq<char>,
    pub links: Seq<(Label, Seq<char>)>,
    pub developers: Seq<(Seq<char>, Seq<char>)>,
}

impl View for About {
    type V = AboutView;

    open spec fn view(&self) -> AboutView {
        AboutView {
            name: self.name,
            icon: self.icon@,
            version: self.version@,
            author: self.author@,
            license: self.license@,
            links: Seq::new(self.links@.len(), |i: int| (self.links@[i].0, self.links@[i].1@)),
            developers: Seq::new(
                self.developers@.len(),
                |i: int| (self.developers@[i].0@, self.developers@[i].1@),
            ),
        }
    }
}

/// The about page.
pub open spec fn about_page() -> AboutView {
    AboutView {
        name: Label::Tasks,
        icon: APP_ID@,
        version: "0.2.0"@,
        author: "Eduardo Flores"@,
        license: "GPL-3.0-only"@,
        links: seq![
            (Label::Repository, "https://github.com/cosmic-utils/tasks"@),
            (Label::Support, "https://github.com/cosmic-utils/tasks/issues"@),
            (Label::Website, "https://tasks.edfloreshz.dev"@),
        ],
        developers: seq![("Eduardo Flores"@, "edfloreshz@proton.me"@)],
    }
}

/// What the context drawer holds: the about page, the settings, or the details page.
#[derive(Debug)]
pub enum DrawerBody {
    About(About),
    Settings(Settings),
    TaskDetails(Details),
}

#[verifier::ext_equal]
pub enum DrawerBodyView {
    About(AboutView),
    Settings(SettingsView),
    TaskDetails(DetailsView),
}

impl View for DrawerBody {
    type V = DrawerBodyView;

    open spec fn view(&self) -> DrawerBodyView {
        match self {
            DrawerBody::About(about) => DrawerBodyView::About(about@),
            DrawerBody::Settings(settings) => DrawerBodyView::Settings(settings@),
            DrawerBody::TaskDetails(details) => DrawerBodyView::TaskDetails(details@),
        }
    }
}

/// The open context drawer: the page whose title it has, what it holds, and the message that
/// its close button sends.
#[derive(Debug)]
pub struct Drawer {
    pub title: ContextPage,
    pub body: DrawerBody,
    pub on_close: Message,
}

#[verifier::ext_equal]
pub struct DrawerView {
    pub title: ContextPage,
    pub body: DrawerBodyView,
    pub on_close: MessageView,
}

impl View for Drawer {
    type V = DrawerView;

    open spec fn view(&self) -> DrawerView {
        DrawerView { title: self.title, body: self.body@, on_close: self.on_close@ }
    }
}

/// What happens on a page of the context drawer, but for the settings, whose controls each have
/// their message: a link of the about page is followed, or the details page has a message.
#[derive(Debug)]
pub enum DrawerEvent {
    Link(String),
    Details(details::Message),
}

impl DrawerEvent {
    /// The message that is sent.
    pub open spec fn sends(self) -> MessageView {
        match self {
            DrawerEvent::Link(url) => MessageView::Open(url@),
            DrawerEvent::Details(message) => MessageView::Details(message),
        }
    }

    /// The message that is sent.
    pub fn message(self) -> (r: Message)
        ensures
            r@ == self.sends(),
    {
        match self {
            DrawerEvent::Link(url) => Message::Open(url),
            DrawerEvent::Details(message) => Message::Details(message),
        }
    }
}

/// An entry of the menu of a navigation item.
#[derive(Debug)]
pub struct NavMenuItem {
    pub label: Label,
    pub icon: String,
    pub icon_size: u16,
    pub action: NavMenuAction,
}

#[verifier::ext_equal]
pub struct NavMenuItemView {
    pub label: Label,
    pub icon: Seq<char>,
    pub icon_size: u16,
    pub action: NavMenuAction,
}

impl View for NavMenuItem {
    type V = NavMenuItemView;

    open spec fn view(&self) -> NavMenuItemView {
        NavMenuItemView {
            label: self.label,
            icon: self.icon@,
            icon_size: self.icon_size,
            action: self.action,
        }
    }
}

/// The menu of the navigation item named `id`.
pub open spec fn nav_menu_items(id: Entity) -> Seq<NavMenuItemView> {
    seq![
        NavMenuItemView {
            label: Label::Rename,
            icon: "edit-symbolic"@,
            icon_size: 14,
            action: NavMenuAction::Rename(id),
        },
        NavMenuItemView {
            label: Label::Icon,
            icon: "face-smile-big-symbolic"@,
            icon_size: 14,
            action: NavMenuAction::SetIcon(id),
        },
        NavMenuItemView {
            label: Label::Export,
            icon: "share-symbolic"@,
            icon_size: 18,
            action: NavMenuAction::Export(id),
        },
        NavMenuItemView {
            label: Label::Delete,
            icon: "user-trash-full-symbolic"@,
            icon_size: 14,
            action: NavMenuAction::Delete(id),
        },
    ]
}

/// Where events come from.
#[derive(Debug, Clone, Copy, PartialEq, Eq, Structural)]
pub enum Source {
    Keyboard,
    AppConfig,
    ThemeMode,
    Content,
}

/// What the windowing side reports. `KeyPressed` says of each key binding, in their order,
/// whether the key matches it.
#[derive(Debug)]
pub enum WindowEvent {
    KeyPressed(Vec<bool>),
    ModifiersChanged(Modifiers),
    Other,
}

/// The message of an event on the windowing side, if it has one.
pub open spec fn window_event_sends(event: WindowEvent) -> Option<MessageView> {
    match event {
        WindowEvent::KeyPressed(matches) => Some(
            MessageView::Application(ApplicationActionView::Key(matches@)),
        ),
        WindowEvent::ModifiersChanged(modifiers) => Some(
            MessageView::Application(ApplicationActionView::Modifiers(modifiers)),
        ),
        WindowEvent::Other => None,
    }
}

/// The message of an event on the windowing side, if it has one.
pub fn window_event_message(event: WindowEvent) -> (r: Option<Message>)
    ensures
        views::opt_view(r) == window_event_sends(event),
{
    match event {
        WindowEvent::KeyPressed(matches) => Some(
            Message::Application(ApplicationAction::Key(matches)),
        ),
        WindowEvent::ModifiersChanged(modifiers) => Some(
            Message::Application(ApplicationAction::Modifiers(modifiers)),
        ),
        WindowEvent::Other => None,
    }
}

/// A change of the configuration or of the theme mode: the entries that changed, and the errors
/// of reading them.
#[derive(Debug)]
pub struct ConfigUpdate {
    pub keys: Vec<String>,
    pub errors: Vec<String>,
}

/// What a source of events reports.
#[derive(Debug)]
pub enum Report {
    Keyboard(WindowEvent),
    AppConfig(ConfigUpdate),
    ThemeMode(ConfigUpdate),
    Content(content::Message),
}

impl Report {
    /// The source that reports this.
    pub open spec fn origin(self) -> Source {
        match self {
            Report::Keyboard(_) => Source::Keyboard,
            Report::AppConfig(_) => Source::AppConfig,
            Report::ThemeMode(_) => Source::ThemeMode,
            Report::Content(_) => Source::Content,
        }
    }

    /// The message that is sent, if there is one. A change of the configuration or of the theme
    /// mode is one of the theme, with or without errors.
    pub open spec fn sends(self) -> Option<MessageView> {
        match self {
            Report::Keyboard(event) => window_event_sends(event),
            Report::AppConfig(_) => Some(
                MessageView::Application(ApplicationActionView::SystemThemeModeChange),
            ),
            Report::ThemeMode(_) => Some(
                MessageView::Application(ApplicationActionView::SystemThemeModeChange),
            ),
            Report::Content(message) => Some(MessageView::Content(message@)),
        }
    }

    /// The message that is sent, if there is one.
    pub fn message(self) -> (r: Option<Message>)
        ensures
            views::opt_view(r) == self.sends(),
    {
        match self {
            Report::Keyboard(event) => window_event_message(event),
            Report::AppConfig(_) => Some(
                Message::Application(ApplicationAction::SystemThemeModeChange),
            ),
            Report::ThemeMode(_) => Some(
                Message::Application(ApplicationAction::SystemThemeModeChange),
            ),
            Report::Content(message) => Some(Message::Content(message)),
        }
    }
}

/// The about page.
pub fn about() -> (r: About)
    ensures
        r@ == about_page(),
{
    let mut links: Vec<(Label, String)> = Vec::new();
    links.push((Label::Repository, "https://github.com/cosmic-utils/tasks".to_owned()));
    links.push((Label::Support, "https://github.com/cosmic-utils/tasks/issues".to_owned()));
    links.push((Label::Website, "https://tasks.edfloreshz.dev".to_owned()));
    let mut developers: Vec<(String, String)> = Vec::new();
    developers.push(("Eduardo Flores".to_owned(), "edfloreshz@proton.me".to_owned()));
    let r = About {
        name: Label::Tasks,
        icon: APP_ID.to_owned(),
        version: "0.2.0".to_owned(),
        author: "Eduardo Flores".to_owned(),
        license: "GPL-3.0-only".to_owned(),
        links,
        developers,
    };
    assert(r@.links =~= about_page().links);
    assert(r@.developers =~= about_page().developers);
    r
}

impl TasksView {
    /// The section of the settings on the looks of the application.
    pub open spec fn appearance_section(self) -> SectionView {
        SectionView {
            title: CaptionView::Localized(Label::Appearance),
            rows: seq![
                RowView::Dropdown {
                    caption: CaptionView::Localized(Label::Theme),
                    options: self.app_themes,
                    selected: self.config.app_theme.position(),
                    choice: Choice::Theme,
                },
            ],
        }
    }

    /// The section of the settings on the language model service. A test cannot be begun while
    /// another is under way.
    pub open spec fn ai_section(self) -> SectionView {
        SectionView {
            title: CaptionView::Literal("AI"@),
            rows: seq![
                RowView::Dropdown {
                    caption: CaptionView::Literal("Provider"@),
                    options: self.preferences.provider_options,
                    selected: self.preferences.selected_provider,
                    choice: Choice::Provider,
                },
                RowView::Dropdown {
                    caption: CaptionView::Literal("Model"@),
                    options: self.preferences.model_options,
                    selected: self.preferences.selected_model,
                    choice: Choice::Model,
                },
                RowView::TextInput {
                    caption: CaptionView::Literal("API Base URL"@),
                    placeholder: "https://api.openai.com"@,
                    value: self.preferences.api_base,
                    width: Some(420),
                    input: Input::ApiBase,
                },
                RowView::TextInput {
                    caption: CaptionView::Literal("API Key"@),
                    placeholder: "••••••••"@,
                    value: self.preferences.api_key,
                    width: None,
                    input: Input::ApiKey,
                },
                RowView::Buttons {
                    buttons: seq![
                        ButtonView {
                            text: "Test Connection"@,
                            on_press: if self.preferences.testing {
                                None
                            } else {
                                Some(MessageView::Preferences(PreferencesMessageView::Test))
                            },
                        },
                        ButtonView {
                            text: "Save"@,
                            on_press: Some(MessageView::Preferences(PreferencesMessageView::Save)),
                        },
                    ],
                    spacing: 8,
                },
                RowView::Text(self.preferences.status_text()),
            ],
        }
    }

    /// The settings page.
    pub open spec fn settings(self) -> SettingsView {
        SettingsView {
            sections: seq![self.appearance_section(), self.ai_section()],
            spacing: 16,
        }
    }

    /// The context drawer, while it is open.
    pub open spec fn context_drawer(self) -> Option<DrawerView> {
        if self.show_context {
            Some(
                DrawerView {
                    title: self.context_page,
                    body: match self.context_page {
                        ContextPage::About => DrawerBodyView::About(about_page()),
                        ContextPage::Settings => DrawerBodyView::Settings(self.settings()),
                        ContextPage::TaskDetails => DrawerBodyView::TaskDetails(self.details),
                    },
                    on_close: MessageView::Application(ApplicationActionView::ToggleContextDrawer),
                },
            )
        } else {
            None
        }
    }
}

impl Tasks {
    /// The section of the settings on the looks of the application.
    fn appearance_section(&self) -> (r: Section)
        ensures
            r@ == self@.appearance_section(),
    {
        let mut rows: Vec<Row> = Vec::new();
        rows.push(
            Row::Dropdown {
                caption: Caption::Localized(Label::Theme),
                options: views::clone_strings(&self.app_themes),
                selected: self.config.app_theme.index(),
                choice: Choice::Theme,
            },
        );
        assert(views::seq_view(rows@) =~= self@.appearance_section().rows);
        Section { title: Caption::Localized(Label::Appearance), rows }
    }

    /// The buttons of the settings.
    fn settings_buttons(&self) -> (r: Vec<Button>)
        ensures
            self@.ai_section().rows[4] == (RowView::Buttons {
                buttons: views::seq_view(r@),
                spacing: 8,
            }),
    {
        let on_press: Option<Message> = if self.preferences.testing {
            None
        } else {
            Some(Message::Preferences(PreferencesMessage::Test))
        };
        let mut buttons: Vec<Button> = Vec::new();
        buttons.push(Button { text: "Test Connection".to_owned(), on_press });
        buttons.push(
            Button {
                text: "Save".to_owned(),
                on_press: Some(Message::Preferences(PreferencesMessage::Save)),
            },
        );
        assert(views::seq_view(buttons@) =~= self@.ai_section().rows[4]->buttons);
        buttons
    }

    /// The section of the settings on the language model service.
    fn ai_section(&self) -> (r: Section)
        ensures
            r@ == self@.ai_section(),
    {
        let mut rows: Vec<Row> = Vec::new();
        rows.push(
            Row::Dropdown {
                caption: Caption::Literal("Provider".to_owned()),
                options: views::clone_strings(&self.preferences.provider_options),
                selected: self.preferences.selected_provider,
                choice: Choice::Provider,
            },
        );
        rows.push(
            Row::Dropdown {
                caption: Caption::Literal("Model".to_owned()),
                options: views::clone_strings(&self.preferences.model_options),
                selected: self.preferences.selected_model,
                choice: Choice::Model,
            },
        );
        rows.push(
            Row::TextInput {
                caption: Caption::Literal("API Base URL".to_owned()),
                placeholder: "https://api.openai.com".to_owned(),
                value: self.preferences.api_base.clone(),
                width: Some(420),
                input: Input::ApiBase,
            },
        );
        rows.push(
            Row::TextInput {
                caption: Caption::Literal("API Key".to_owned()),
                placeholder: "••••••••".to_owned(),
                value: self.preferences.api_key.clone(),
                width: None,
                input: Input::ApiKey,
            },
        );
        rows.push(Row::Buttons { buttons: self.settings_buttons(), spacing: 8 });
        rows.push(Row::Text(self.preferences.status_text()));
        assert(views::seq_view(rows@) =~= self@.ai_section().rows);
        Section { title: Caption::Literal("AI".to_owned()), rows }
    }

    /// The settings page.
    pub fn settings(&self) -> (r: Settings)
        ensures
            r@ == self@.settings(),
    {
        let mut sections: Vec<Section> = Vec::new();
        sections.push(self.appearance_section());
        sections.push(self.ai_section());
        assert(views::seq_view(sections@) =~= self@.settings().sections);
        Settings { sections, spacing: 16 }
    }

    /// The context drawer, while it is open.
    pub fn context_drawer(&self) -> (r: Option<Drawer>)
        ensures
            views::opt_view(r) == self@.context_drawer(),
    {
        if !self.show_context {
            return None;
        }
        let body: DrawerBody = match self.context_page {
            ContextPage::About => DrawerBody::About(about()),
            ContextPage::Settings => DrawerBody::Settings(self.settings()),
            ContextPage::TaskDetails => DrawerBody::TaskDetails(self.details.clone()),
        };
        Some(
            Drawer {
                title: self.context_page,
                body,
                on_close: Message::Application(ApplicationAction::ToggleContextDrawer),
            },
        )
    }

    /// The foremost dialog, with the name of its input.
    pub fn dialog(&self) -> (r: Option<(&DialogPage, u64)>)
        ensures
            match r {
                Some((page, input)) => {
                    &&& self@.dialog_pages.len() > 0
                    &&& page@ == self@.dialog_pages[0]
                    &&& input == self@.dialog_text_input
                },
                None => self@.dialog_pages.len() == 0,
            },
    {
        if self.dialog_pages.len() == 0 {
            None
        } else {
            Some((&self.dialog_pages[0], self.dialog_text_input))
        }
    }

    /// The menu of a navigation item.
    pub fn nav_context_menu(&self, id: Entity) -> (r: Vec<NavMenuItem>)
        ensures
            views::seq_view(r@) == nav_menu_items(id),
    {
        let mut items: Vec<NavMenuItem> = Vec::new();
        items.push(
            NavMenuItem {
                label: Label::Rename,
                icon: "edit-symbolic".to_owned(),
                icon_size: 14,
                action: NavMenuAction::Rename(id),
            },
        );
        items.push(
            NavMenuItem {
                label: Label::Icon,
                icon: "face-smile-big-symbolic".to_owned(),
                icon_size: 14,
                action: NavMenuAction::SetIcon(id),
            },
        );
        items.push(
            NavMenuItem {
                label: Label::Export,
                icon: "share-symbolic".to_owned(),
                icon_size: 18,
                action: NavMenuAction::Export(id),
            },
        );
        items.push(
            NavMenuItem {
                label: Label::Delete,
                icon: "user-trash-full-symbolic".to_owned(),
                icon_size: 14,
                action: NavMenuAction::Delete(id),
            },
        );
        assert(views::seq_view(items@) =~= nav_menu_items(id));
        items
    }

    /// The navigation bar.
    pub fn nav_model(&self) -> (r: Option<&NavModel>)
        ensures
            r == Some(&self.nav_model),
    {
        Some(&self.nav_model)
    }

    /// Where the events of the application come from. Each report comes from one of these
    /// sources, and sends what [`Report::message`] makes of it.
    pub fn subscription(&self) -> (r: Vec<Source>)
        ensures
            r@ == seq![Source::Keyboard, Source::AppConfig, Source::ThemeMode, Source::Content],
            forall|report: Report| r@.contains(#[trigger] report.origin()),
    {
        let mut sources: Vec<Source> = Vec::new();
        sources.push(Source::Keyboard);
        sources.push(Source::AppConfig);
        sources.push(Source::ThemeMode);
        sources.push(Source::Content);
        assert forall|report: Report| sources@.contains(#[trigger] report.origin()) by {
            assert(sources@[0] == Source::Keyboard);
            assert(sources@[1] == Source::AppConfig);
            assert(sources@[2] == Source::ThemeMode);
            assert(sources@[3] == Source::Content);
        }
        sources
    }
}

} // verus!
