//! Which panels of the editor are open.

use vstd::prelude::*;

verus! {

/// Which dialogs the editor shows.
#[derive(Clone, Copy, Debug, PartialEq, Eq)]
pub struct UIState {
    pub show_settings: bool,
    pub show_plugins: bool,
}

/// An entry of the menu bar.
#[derive(Clone, Copy, Debug, PartialEq, Eq)]
pub enum MenuCommand {
    Open,
    Save,
    Settings,
    Plugins,
}

/// What the editor has to do after a menu entry was chosen.
#[derive(Clone, Copy, Debug, PartialEq, Eq)]
pub enum MenuEffect {
    Nothing,
    SaveCurrentTab,
}

impl UIState {
    /// No dialog is open.
    pub fn new() -> (state: UIState)
        ensures
            !state.show_settings,
            !state.show_plugins,
    {
        UIState { show_settings: false, show_plugins: false }
    }

    /// Takes note that the user chose `command`: "Settings" and "Plugins"
    /// open their dialogs, "Save" asks the editor to write the current tab,
    /// and "Open" does nothing yet.
    pub fn menu_chosen(&mut self, command: MenuCommand) -> (effect: MenuEffect)
        ensures
            final(self).show_settings == (old(self).show_settings || command
                == MenuCommand::Settings),
            final(self).show_plugins == (old(self).show_plugins || command
                == MenuCommand::Plugins),
            effect == if command == MenuCommand::Save {
                MenuEffect::SaveCurrentTab
            } else {
                MenuEffect::Nothing
            },
    {
        match command {
            MenuCommand::Open => MenuEffect::Nothing,
            MenuCommand::Save => MenuEffect::SaveCurrentTab,
            MenuCommand::Settings => {
                self.show_settings = true;
                MenuEffect::Nothing
            },
            MenuCommand::Plugins => {
                self.show_plugins = true;
                MenuEffect::Nothing
            },
        }
    }
}

} // verus!
