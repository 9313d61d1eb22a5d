//! The core of a small text editor with AI completions: the completion
//! pipeline ([`ai`]), and the plain state of tabs, settings and panels.

pub mod ai;
pub mod config;
pub mod syntax;
pub mod ui;

use std::path::PathBuf;
use vstd::prelude::*;
use vstd::string::StringExecFns;

use crate::ai::AIManager;
use crate::ai::CompletionRequest;
use crate::ui::UIState;

verus! {

#[verifier::external_type_specification]
#[verifier::external_body]
pub struct ExPathBuf(PathBuf);

/// One open document.
#[derive(Debug)]
pub struct Tab {
    /// Where the document is stored; `None` until it has been saved.
    pub path: Option<PathBuf>,
    pub content: String,
}

impl Default for Tab {
    fn default() -> (tab: Tab)
        ensures
            tab.path is None,
            tab.content@ == Seq::<char>::empty(),
    {
        Tab::new()
    }
}

/// The final component of `path` as text, if it has one and it is valid Unicode.
///
/// Trusted: `std::path::Path::file_name`, with the `OsStr` it yields turned
/// into a `String`. Nothing is claimed of the result: how a path splits into
/// components depends on the platform.
#[verifier::external_body]
fn file_name_text(path: &PathBuf) -> (name: Option<String>) {
    path.file_name().and_then(|name| name.to_str()).map(|name| name.to_string())
}

/// The title of a tab whose file name, if it has one, is `file_name`.
pub open spec fn title_text(file_name: Option<Seq<char>>) -> Seq<char> {
    match file_name {
        Some(name) => name,
        None => "Untitled"@,
    }
}

/// The mathematical value of a text that may be missing.
pub open spec fn optional_text(text: Option<String>) -> Option<Seq<char>> {
    match text {
        Some(text) => Some(text@),
        None => None,
    }
}

/// The title for a document whose file name, if it has one, is `file_name`.
pub fn title_for(file_name: Option<String>) -> (title: String)
    ensures
        title@ == title_text(optional_text(file_name)),
{
    match file_name {
        Some(name) => name,
        None => String::from_str("Untitled"),
    }
}

impl Tab {
    /// An empty document that has not been saved yet.
    pub fn new() -> (tab: Tab)
        ensures
            tab.path is None,
            tab.content@ == Seq::<char>::empty(),
    {
        Tab { path: None, content: String::new() }
    }

    /// What the tab is called: the file's name, or "Untitled" where there is
    /// no path or the path ends in no name that is valid Unicode.
    pub fn title(&self) -> (title: String)
        ensures
            self.path is None ==> title@ == "Untitled"@,
    {
        match &self.path {
            Some(path) => title_for(file_name_text(path)),
            None => title_for(None),
        }
    }
}

/// The documents that are open, and which of them the user works on.
pub struct TextEditor {
    pub tabs: Vec<Tab>,
    /// The index of the tab in front. It points at no tab while none is open.
    pub current_tab: usize,
    pub ui_state: UIState,
}

impl TextEditor {
    /// An editor with no tab and no dialog open.
    pub fn new() -> (editor: TextEditor)
        ensures
            editor.tabs@ == Seq::<Tab>::empty(),
            editor.current_tab == 0,
            !editor.ui_state.show_settings,
            !editor.ui_state.show_plugins,
    {
        TextEditor { tabs: Vec::new(), current_tab: 0, ui_state: UIState::new() }
    }

    /// Opens the document at `path`, whose text is `content`, in a new tab
    /// behind the others and brings it to the front.
    pub fn open_file(&mut self, path: PathBuf, content: String)
        ensures
            final(self).tabs@ == old(self).tabs@.push(Tab { path: Some(path), content }),
            final(self).current_tab == old(self).tabs@.len(),
            final(self).ui_state == old(self).ui_state,
    {
        self.tabs.push(Tab { path: Some(path), content });
        self.current_tab = self.tabs.len() - 1;
    }

    /// The tab in front, if there is one.
    pub open spec fn spec_current(&self) -> Option<Tab> {
        if self.current_tab < self.tabs@.len() {
            Some(self.tabs@[self.current_tab as int])
        } else {
            None
        }
    }

    /// The tab that a "save" has to write: the one in front, if it has a path.
    pub fn save_current_tab(&self) -> (to_write: Option<&Tab>)
        ensures
            match self.spec_current() {
                Some(tab) => if tab.path is Some {
                    to_write == Some(&tab)
                } else {
                    to_write is None
                },
                None => to_write is None,
            },
    {
        if self.current_tab < self.tabs.len() {
            let tab = &self.tabs[self.current_tab];
            if tab.path.is_some() {
                Some(tab)
            } else {
                None
            }
        } else {
            None
        }
    }

    /// The completion request for the text of the tab in front, addressed to
    /// the model that is current in `manager`; `None` while no tab is open.
    pub fn get_ai_completion(&self, manager: &AIManager) -> (request: Option<CompletionRequest>)
        ensures
            match self.spec_current() {
                Some(tab) => request matches Some(made) && made@ == manager@.prepare(
                    tab.content@,
                ),
                None => request is None,
            },
    {
        if self.current_tab < self.tabs.len() {
            Some(manager.prepare_request(self.tabs[self.current_tab].content.as_str()))
        } else {
            None
        }
    }
}

} // verus!
