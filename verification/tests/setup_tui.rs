use p2pchat::chat_tui::{KeyInput, KeyPress};
use p2pchat::settings::{setting_definitions, SettingMap, SettingName, SettingValue};
use p2pchat::setup_tui::{
    apply_input_buffer, buffer_value, exit_prompt, init_input_buffers, is_control, save_settings, setting_item_value,
    EditorAction, ItemValue, SettingsEditor,
};

fn key(code: KeyInput) -> KeyPress {
    KeyPress { code, ctrl: false, shift: false, alt: false }
}

fn ctrl(c: char) -> KeyPress {
    KeyPress { code: KeyInput::Char(c), ctrl: true, shift: false, alt: false }
}

fn saved(name: &str) -> SettingMap<SettingValue> {
    let mut m = SettingMap::new();
    m.insert(SettingName::Name, SettingValue::String(Some(name.to_string())));
    m.insert(SettingName::KeyPair, SettingValue::String(None));
    m
}

#[test]
fn buffers_for_typed_settings_only() {
    let defs = setting_definitions();
    let b = init_input_buffers(&defs, &saved("ann"));
    assert_eq!(b.get(SettingName::Name), Some(&"ann".to_string()));
    assert_eq!(b.get(SettingName::KeyPair), None);
    let empty = init_input_buffers(&defs, &SettingMap::new());
    assert_eq!(empty.get(SettingName::Name), Some(&String::new()));
}

#[test]
fn buffer_values() {
    assert_eq!(buffer_value(&String::new()), SettingValue::String(None));
    assert_eq!(buffer_value(&"x".to_string()), SettingValue::String(Some("x".to_string())));
}

#[test]
fn applying_and_saving_buffers() {
    let defs = setting_definitions();
    let mut s = saved("ann");
    apply_input_buffer(&mut s, &defs[0], &"bob".to_string());
    assert_eq!(s.get(SettingName::Name), Some(&SettingValue::String(Some("bob".to_string()))));
    apply_input_buffer(&mut s, &defs[0], &String::new());
    assert_eq!(s.get(SettingName::Name), Some(&SettingValue::String(None)));
    let mut buffers = SettingMap::new();
    buffers.insert(SettingName::Name, "cy".to_string());
    save_settings(&mut s, &buffers);
    assert_eq!(s.get(SettingName::Name), Some(&SettingValue::String(Some("cy".to_string()))));
    assert_eq!(s.get(SettingName::KeyPair), Some(&SettingValue::String(None)));
}

#[test]
fn control_characters() {
    assert!(is_control('\n'));
    assert!(is_control('\u{7f}'));
    assert!(is_control('\u{9f}'));
    assert!(!is_control('a'));
    assert!(!is_control(' '));
}

#[test]
fn editor_types_into_selected_setting() {
    let defs = setting_definitions();
    let mut e = SettingsEditor::new(&defs, saved("an"));
    assert_eq!(e.status, "Ready.");
    assert_eq!(e.handle_key(&defs, key(KeyInput::Char('n'))), EditorAction::Nothing);
    assert_eq!(e.input_buffers.get(SettingName::Name), Some(&"ann".to_string()));
    assert_eq!(e.settings.get(SettingName::Name), Some(&SettingValue::String(Some("ann".to_string()))));
    assert!(e.dirty);
    e.handle_key(&defs, key(KeyInput::Backspace));
    assert_eq!(e.input_buffers.get(SettingName::Name), Some(&"an".to_string()));
}

#[test]
fn editor_saves_with_control_s() {
    let defs = setting_definitions();
    let mut e = SettingsEditor::new(&defs, saved("an"));
    e.handle_key(&defs, key(KeyInput::Char('a')));
    assert_eq!(e.handle_key(&defs, ctrl('s')), EditorAction::Save);
    assert!(!e.dirty);
    assert_eq!(e.status, "Settings saved.");
}

#[test]
fn editor_asks_before_leaving_unsaved_changes() {
    let defs = setting_definitions();
    let mut e = SettingsEditor::new(&defs, saved("an"));
    e.handle_key(&defs, key(KeyInput::Char('a')));
    e.handle_key(&defs, key(KeyInput::Esc));
    assert!(e.show_exit_modal);
    assert!(!e.should_exit);
    assert_eq!(e.status, "Unsaved changes. Save before exiting? (y/n)");
    assert_eq!(e.handle_key(&defs, key(KeyInput::Char('y'))), EditorAction::Save);
    assert!(e.should_exit);

    let mut clean = SettingsEditor::new(&defs, saved("an"));
    clean.handle_key(&defs, key(KeyInput::Esc));
    assert!(clean.should_exit);
}

#[test]
fn moving_keeps_unsaved_changes() {
    let defs = setting_definitions();
    let mut e = SettingsEditor::new(&defs, saved("an"));
    e.handle_key(&defs, key(KeyInput::Char('a')));
    assert_eq!(e.handle_key(&defs, key(KeyInput::Down)), EditorAction::Nothing);
    assert_eq!(e.handle_key(&defs, key(KeyInput::Up)), EditorAction::Nothing);
    assert!(e.dirty);
    assert!(!e.should_exit);
    assert!(!e.show_exit_modal);
    assert_eq!(e.settings.get(SettingName::Name), Some(&SettingValue::String(Some("ana".to_string()))));
    e.handle_key(&defs, key(KeyInput::Esc));
    assert!(e.show_exit_modal);
    assert!(!e.should_exit);
}

#[test]
fn saving_keeps_the_generated_keypair() {
    let defs = setting_definitions();
    let mut e = SettingsEditor::new(&defs, saved("an"));
    e.handle_key(&defs, key(KeyInput::Down));
    e.handle_key(&defs, key(KeyInput::Char(' ')));
    let generated = e.settings.get(SettingName::KeyPair).cloned();
    assert!(matches!(generated, Some(SettingValue::String(Some(_)))));
    assert_eq!(e.handle_key(&defs, ctrl('s')), EditorAction::Save);
    assert_eq!(e.settings.get(SettingName::KeyPair).cloned(), generated);
    assert_eq!(e.settings.get(SettingName::Name), Some(&SettingValue::String(Some("an".to_string()))));
}

#[test]
fn editor_generates_keypair_with_space() {
    let defs = setting_definitions();
    let mut e = SettingsEditor::new(&defs, saved("an"));
    e.handle_key(&defs, key(KeyInput::Down));
    assert_eq!(e.selected_setting.selected(), Some(1));
    e.handle_key(&defs, key(KeyInput::Char(' ')));
    assert_eq!(e.status, "Generating Keypair.");
    assert!(matches!(e.settings.get(SettingName::KeyPair), Some(SettingValue::String(Some(_)))));
    assert_eq!(setting_item_value(&defs[1], &e.settings, &e.input_buffers), ItemValue::Chars(92));
}

#[test]
fn list_values_and_exit_prompt() {
    let defs = setting_definitions();
    let s = saved("an");
    let mut b = SettingMap::new();
    b.insert(SettingName::Name, "typed".to_string());
    assert_eq!(setting_item_value(&defs[0], &s, &b), ItemValue::Typed("typed".to_string()));
    assert_eq!(setting_item_value(&defs[1], &s, &b), ItemValue::Missing);
    let mut bytes = SettingMap::new();
    bytes.insert(SettingName::KeyPair, SettingValue::Bytes(Some(vec![1, 2, 3])));
    assert_eq!(setting_item_value(&defs[1], &bytes, &b), ItemValue::Bytes(3));
    assert_eq!(exit_prompt(true), "Save changes before exiting? (y/n)");
    assert_eq!(exit_prompt(false), "Exit setup? (y/n)");
}
