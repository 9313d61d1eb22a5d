//! Settings that the editor core shares with its surroundings.

use vstd::prelude::*;
use vstd::string::StringExecFns;

verus! {

/// The colour scheme of the editor.
#[derive(Debug, PartialEq, Eq)]
pub enum EditorTheme {
    Dark,
    Light,
    Sepia,
    /// A style sheet of the user's own; the text is its path.
    Custom(String),
}

/// The style sheets that come with the editor.
#[derive(Clone, Copy, Debug, PartialEq, Eq)]
pub enum BuiltInStyle {
    Dark,
    Light,
    Sepia,
}

impl EditorTheme {
    /// The built-in style sheet of this theme. For a theme of the user's own
    /// it is the dark one, which stands in when the user's file cannot be read.
    pub fn built_in_style(&self) -> (style: BuiltInStyle)
        ensures
            style == match *self {
                EditorTheme::Dark => BuiltInStyle::Dark,
                EditorTheme::Light => BuiltInStyle::Light,
                EditorTheme::Sepia => BuiltInStyle::Sepia,
                EditorTheme::Custom(_) => BuiltInStyle::Dark,
            },
    {
        match self {
            EditorTheme::Dark => BuiltInStyle::Dark,
            EditorTheme::Light => BuiltInStyle::Light,
            EditorTheme::Sepia => BuiltInStyle::Sepia,
            EditorTheme::Custom(_) => BuiltInStyle::Dark,
        }
    }
}

/// The shortcuts of the file commands.
#[derive(Debug, PartialEq, Eq)]
pub struct KeyBindings {
    pub save: String,
    pub open: String,
    pub new: String,
    pub close: String,
}

impl Clone for EditorTheme {
    fn clone(&self) -> (copy: EditorTheme)
        ensures
            copy == *self,
    {
        match self {
            EditorTheme::Dark => EditorTheme::Dark,
            EditorTheme::Light => EditorTheme::Light,
            EditorTheme::Sepia => EditorTheme::Sepia,
            EditorTheme::Custom(path) => EditorTheme::Custom(path.clone()),
        }
    }
}

impl Clone for KeyBindings {
    fn clone(&self) -> (copy: KeyBindings)
        ensures
            copy == *self,
    {
        KeyBindings {
            save: self.save.clone(),
            open: self.open.clone(),
            new: self.new.clone(),
            close: self.close.clone(),
        }
    }
}

impl Default for KeyBindings {
    fn default() -> (bindings: KeyBindings)
        ensures
            bindings.save@ == "Ctrl+S"@,
            bindings.open@ == "Ctrl+O"@,
            bindings.new@ == "Ctrl+N"@,
            bindings.close@ == "Ctrl+W"@,
    {
        KeyBindings {
            save: String::from_str("Ctrl+S"),
            open: String::from_str("Ctrl+O"),
            new: String::from_str("Ctrl+N"),
            close: String::from_str("Ctrl+W"),
        }
    }
}

} // verus!
