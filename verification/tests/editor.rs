use std::path::PathBuf;
use txt_ml::ai::AIManager;
use txt_ml::ai::ModelType;
use txt_ml::config::EditorTheme;
use txt_ml::config::KeyBindings;
use txt_ml::title_for;
use txt_ml::ui::MenuCommand;
use txt_ml::ui::MenuEffect;
use txt_ml::ui::UIState;
use txt_ml::Tab;
use txt_ml::TextEditor;

#[test]
fn new_tab_is_empty_and_untitled() {
    let tab = Tab::new();
    assert!(tab.path.is_none());
    assert_eq!(tab.content, "");
    assert_eq!(tab.title(), "Untitled");
}

#[test]
fn default_tab_is_a_new_tab() {
    let tab = Tab::default();
    assert!(tab.path.is_none());
    assert_eq!(tab.content, "");
}

#[test]
fn tab_is_called_after_its_file() {
    let tab = Tab { path: Some(PathBuf::from("/home/me/notes.txt")), content: String::new() };
    assert_eq!(tab.title(), "notes.txt");
    let relative = Tab { path: Some(PathBuf::from("main.rs")), content: "fn main() {}".to_string() };
    assert_eq!(relative.title(), "main.rs");
}

#[test]
fn tab_without_a_file_name_is_untitled() {
    let tab = Tab { path: Some(PathBuf::from("..")), content: String::new() };
    assert_eq!(tab.title(), "Untitled");
    let root = Tab { path: Some(PathBuf::from("/")), content: String::new() };
    assert_eq!(root.title(), "Untitled");
}

#[test]
fn title_falls_back_to_untitled() {
    assert_eq!(title_for(None), "Untitled");
    assert_eq!(title_for(Some("a.md".to_string())), "a.md");
    assert_eq!(title_for(Some(String::new())), "");
}

#[test]
fn new_ui_state_shows_no_dialog() {
    let state = UIState::new();
    assert!(!state.show_settings);
    assert!(!state.show_plugins);
}

#[test]
fn menu_opens_the_dialogs() {
    let mut state = UIState::new();
    assert_eq!(state.menu_chosen(MenuCommand::Settings), MenuEffect::Nothing);
    assert!(state.show_settings);
    assert!(!state.show_plugins);
    assert_eq!(state.menu_chosen(MenuCommand::Plugins), MenuEffect::Nothing);
    assert!(state.show_settings);
    assert!(state.show_plugins);
}

#[test]
fn menu_save_asks_for_a_save() {
    let mut state = UIState::new();
    assert_eq!(state.menu_chosen(MenuCommand::Save), MenuEffect::SaveCurrentTab);
    assert_eq!(state, UIState::new());
    assert_eq!(state.menu_chosen(MenuCommand::Open), MenuEffect::Nothing);
    assert_eq!(state, UIState::new());
}

#[test]
fn default_key_bindings() {
    let bindings = KeyBindings::default();
    assert_eq!(bindings.save, "Ctrl+S");
    assert_eq!(bindings.open, "Ctrl+O");
    assert_eq!(bindings.new, "Ctrl+N");
    assert_eq!(bindings.close, "Ctrl+W");
    assert_eq!(bindings.clone(), bindings);
}

#[test]
fn themes_are_cloned_whole() {
    let custom = EditorTheme::Custom("themes/mine.css".to_string());
    assert_eq!(custom.clone(), custom);
    assert_eq!(EditorTheme::Dark.clone(), EditorTheme::Dark);
    assert_eq!(EditorTheme::Light.clone(), EditorTheme::Light);
    assert_eq!(EditorTheme::Sepia.clone(), EditorTheme::Sepia);
    assert_ne!(EditorTheme::Sepia, EditorTheme::Dark);
}

#[test]
fn new_editor_has_no_tab() {
    let editor = TextEditor::new();
    assert!(editor.tabs.is_empty());
    assert_eq!(editor.current_tab, 0);
    assert_eq!(editor.ui_state, UIState::new());
    assert!(editor.save_current_tab().is_none());
    assert!(editor.get_ai_completion(&AIManager::new()).is_none());
}

#[test]
fn opened_file_comes_to_the_front() {
    let mut editor = TextEditor::new();
    editor.open_file(PathBuf::from("a.txt"), "alpha".to_string());
    assert_eq!(editor.tabs.len(), 1);
    assert_eq!(editor.current_tab, 0);
    editor.open_file(PathBuf::from("dir/b.txt"), "beta".to_string());
    assert_eq!(editor.tabs.len(), 2);
    assert_eq!(editor.current_tab, 1);
    assert_eq!(editor.tabs[1].title(), "b.txt");
    assert_eq!(editor.tabs[1].content, "beta");
    assert_eq!(editor.tabs[0].content, "alpha");
    editor.current_tab = 0;
    editor.open_file(PathBuf::from("c.txt"), String::new());
    assert_eq!(editor.current_tab, 2);
}

#[test]
fn save_writes_the_tab_in_front() {
    let mut editor = TextEditor::new();
    editor.open_file(PathBuf::from("a.txt"), "alpha".to_string());
    editor.open_file(PathBuf::from("b.txt"), "beta".to_string());
    let tab = editor.save_current_tab().unwrap();
    assert_eq!(tab.path, Some(PathBuf::from("b.txt")));
    assert_eq!(tab.content, "beta");
    editor.current_tab = 0;
    let tab = editor.save_current_tab().unwrap();
    assert_eq!(tab.path, Some(PathBuf::from("a.txt")));
    assert_eq!(tab.content, "alpha");
}

#[test]
fn nothing_is_saved_without_a_path_or_a_tab() {
    let mut editor = TextEditor::new();
    editor.tabs.push(Tab::new());
    assert!(editor.save_current_tab().is_none());
    editor.open_file(PathBuf::from("a.txt"), "alpha".to_string());
    editor.current_tab = 7;
    assert!(editor.save_current_tab().is_none());
}

#[test]
fn completion_is_requested_for_the_tab_in_front() {
    let mut editor = TextEditor::new();
    let mut manager = AIManager::new();
    editor.open_file(PathBuf::from("a.txt"), "alpha".to_string());
    editor.open_file(PathBuf::from("b.txt"), "beta".to_string());
    let request = editor.get_ai_completion(&manager).unwrap();
    assert_eq!(request.prompt, "beta");
    assert_eq!(request.model, ModelType::Default);
    let long = "n".repeat(100);
    manager.auto_select_model(&long);
    editor.current_tab = 0;
    let request = editor.get_ai_completion(&manager).unwrap();
    assert_eq!(request.prompt, "alpha");
    assert_eq!(request.model, ModelType::Custom(long.clone()));
    editor.current_tab = 2;
    assert!(editor.get_ai_completion(&manager).is_none());
}
