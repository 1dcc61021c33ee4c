//! The modal dialogs and what can be done with them.

use vstd::prelude::*;

use crate::details::Calendar;
use crate::nav::Entity;

verus! {

/// A dialog with what has been entered into it. Where it is about a list, the navigation item
/// of that list comes first: the active one, if none is named. `Icon` holds the name of the
/// icon and the text that the icons are searched for.
#[derive(Debug)]
pub enum DialogPage {
    New(String),
    Rename(Option<Entity>, String),
    Delete(Option<Entity>),
    Icon(Option<Entity>, String, String),
    Calendar(Calendar),
    Export(String),
}

#[verifier::ext_equal]
pub enum DialogPageView {
    New(Seq<char>),
    Rename(Option<Entity>, Seq<char>),
    Delete(Option<Entity>),
    Icon(Option<Entity>, Seq<char>, Seq<char>),
    Calendar(Calendar),
    Export(Seq<char>),
}

impl View for DialogPage {
    type V = DialogPageView;

    open spec fn view(&self) -> DialogPageView {
        match self {
            DialogPage::New(name) => DialogPageView::New(name@),
            DialogPage::Rename(entity, name) => DialogPageView::Rename(*entity, name@),
            DialogPage::Delete(entity) => DialogPageView::Delete(*entity),
            DialogPage::Icon(entity, name, search) => DialogPageView::Icon(
                *entity,
                name@,
                search@,
            ),
            DialogPage::Calendar(calendar) => DialogPageView::Calendar(*calendar),
            DialogPage::Export(text) => DialogPageView::Export(text@),
        }
    }
}

impl Clone for DialogPage {
    fn clone(&self) -> (r: Self)
        ensures
            r@ == self@,
    {
        match self {
            DialogPage::New(name) => DialogPage::New(name.clone()),
            DialogPage::Rename(entity, name) => DialogPage::Rename(*entity, name.clone()),
            DialogPage::Delete(entity) => DialogPage::Delete(*entity),
            DialogPage::Icon(entity, name, search) => DialogPage::Icon(
                *entity,
                name.clone(),
                search.clone(),
            ),
            DialogPage::Calendar(calendar) => DialogPage::Calendar(*calendar),
            DialogPage::Export(text) => DialogPage::Export(text.clone()),
        }
    }
}

/// What is done with the dialogs: one more is opened, the foremost is replaced, closed or
/// completed, or nothing happens.
#[derive(Debug)]
pub enum DialogAction {
    Open(DialogPage),
    Update(DialogPage),
    Close,
    Complete,
    Nothing,
}

#[verifier::ext_equal]
pub enum DialogActionView {
    Open(DialogPageView),
    Update(DialogPageView),
    Close,
    Complete,
    Nothing,
}

impl View for DialogAction {
    type V = DialogActionView;

    open spec fn view(&self) -> DialogActionView {
        match self {
            DialogAction::Open(page) => DialogActionView::Open(page@),
            DialogAction::Update(page) => DialogActionView::Update(page@),
            DialogAction::Close => DialogActionView::Close,
            DialogAction::Complete => DialogActionView::Complete,
            DialogAction::Nothing => DialogActionView::Nothing,
        }
    }
}

impl Clone for DialogAction {
    fn clone(&self) -> (r: Self)
        ensures
            r@ == self@,
    {
        match self {
            DialogAction::Open(page) => DialogAction::Open(page.clone()),
            DialogAction::Update(page) => DialogAction::Update(page.clone()),
            DialogAction::Close => DialogAction::Close,
            DialogAction::Complete => DialogAction::Complete,
            DialogAction::Nothing => DialogAction::Nothing,
        }
    }
}

} // verus!
