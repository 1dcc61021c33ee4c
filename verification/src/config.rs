//! The stored configuration.

use vstd::prelude::*;

verus! {

/// The colour themes, in the order in which the settings offer them.
#[derive(Debug, Clone, Copy, PartialEq, Eq, Structural)]
pub enum AppTheme {
    MatchDesktop,
    Dark,
    Light,
}

impl AppTheme {
    /// The theme at a position of the settings' list; the desktop's own past its end.
    pub open spec fn at(index: int) -> AppTheme {
        if index == 1 {
            AppTheme::Dark
        } else if index == 2 {
            AppTheme::Light
        } else {
            AppTheme::MatchDesktop
        }
    }

    /// The position of a theme in the settings' list.
    pub open spec fn position(self) -> int {
        match self {
            AppTheme::MatchDesktop => 0,
            AppTheme::Dark => 1,
            AppTheme::Light => 2,
        }
    }

    /// The theme at a position of the settings' list; the desktop's own past its end.
    pub fn from_index(index: usize) -> (r: AppTheme)
        ensures
            r == AppTheme::at(index as int),
    {
        if index == 1 {
            AppTheme::Dark
        } else if index == 2 {
            AppTheme::Light
        } else {
            AppTheme::MatchDesktop
        }
    }

    /// The position of a theme in the settings' list.
    pub fn index(self) -> (r: usize)
        ensures
            r == self.position(),
    {
        match self {
            AppTheme::MatchDesktop => 0,
            AppTheme::Dark => 1,
            AppTheme::Light => 2,
        }
    }
}

/// What is kept between two runs of the application, but for the key of the service.
#[derive(Debug)]
pub struct TasksConfig {
    pub app_theme: AppTheme,
    pub hide_completed: bool,
    pub llm_provider: String,
    pub llm_model: String,
    pub llm_api_base: String,
}

#[verifier::ext_equal]
pub struct ConfigView {
    pub app_theme: AppTheme,
    pub hide_completed: bool,
    pub llm_provider: Seq<char>,
    pub llm_model: Seq<char>,
    pub llm_api_base: Seq<char>,
}

impl View for TasksConfig {
    type V = ConfigView;

    open spec fn view(&self) -> ConfigView {
        ConfigView {
            app_theme: self.app_theme,
            hide_completed: self.hide_completed,
            llm_provider: self.llm_provider@,
            llm_model: self.llm_model@,
            llm_api_base: self.llm_api_base@,
        }
    }
}

impl Clone for TasksConfig {
    fn clone(&self) -> (r: Self)
        ensures
            r@ == self@,
    {
        TasksConfig {
            app_theme: self.app_theme,
            hide_completed: self.hide_completed,
            llm_provider: self.llm_provider.clone(),
            llm_model: self.llm_model.clone(),
            llm_api_base: self.llm_api_base.clone(),
        }
    }
}

/// One entry of the configuration with the value to store.
#[derive(Debug)]
pub enum ConfigEntry {
    AppTheme(AppTheme),
    HideCompleted(bool),
    LlmProvider(String),
    LlmModel(String),
    LlmApiBase(String),
}

#[verifier::ext_equal]
pub enum ConfigEntryView {
    AppTheme(AppTheme),
    HideCompleted(bool),
    LlmProvider(Seq<char>),
    LlmModel(Seq<char>),
    LlmApiBase(Seq<char>),
}

impl View for ConfigEntry {
    type V = ConfigEntryView;

    open spec fn view(&self) -> ConfigEntryView {
        match self {
            ConfigEntry::AppTheme(theme) => ConfigEntryView::AppTheme(*theme),
            ConfigEntry::HideCompleted(value) => ConfigEntryView::HideCompleted(*value),
            ConfigEntry::LlmProvider(s) => ConfigEntryView::LlmProvider(s@),
            ConfigEntry::LlmModel(s) => ConfigEntryView::LlmModel(s@),
            ConfigEntry::LlmApiBase(s) => ConfigEntryView::LlmApiBase(s@),
        }
    }
}

} // verus!
