use p2pchat::bridge::{base64_encode, generate_ed25519_keypair};
use p2pchat::chat_tui::{KeyInput, KeyPress};
use p2pchat::settings::{SettingMap, SettingName, SettingValue};
use p2pchat::setup::{stored_keypair, Focus, SettingType, SetupAction, SetupApp};
use p2pchat::tracker::TrackerError;

fn key(code: KeyInput) -> KeyPress {
    KeyPress { code, ctrl: false, shift: false, alt: false }
}

fn fresh() -> SetupApp {
    SetupApp::new("127.0.0.1:8000".to_string(), None)
}

#[test]
fn new_screen_has_two_fields() {
    let app = fresh();
    assert_eq!(app.fields.len(), 2);
    assert_eq!(app.fields[0].label, "Name");
    assert_eq!(app.fields[0].setting_type, SettingType::HumanInput);
    assert_eq!(app.fields[1].label, "Keypair");
    assert_eq!(app.fields[1].setting_type, SettingType::Generated);
    assert_eq!(app.focus, Focus::Setting(0));
    assert_eq!(app.keypair, None);
    assert_eq!(app.username_status, None);
}

#[test]
fn new_screen_reads_saved_settings() {
    let key = generate_ed25519_keypair();
    let mut m = SettingMap::new();
    m.insert(SettingName::Name, SettingValue::String(Some("ann".to_string())));
    m.insert(SettingName::KeyPair, SettingValue::String(Some(base64_encode(&key))));
    let app = SetupApp::new("t".to_string(), Some(m));
    assert_eq!(app.fields[0].value, "ann");
    assert_eq!(app.keypair, Some(key));
}

#[test]
fn stored_keypair_needs_a_keypair() {
    let key = generate_ed25519_keypair();
    assert_eq!(stored_keypair(&base64_encode(&key)), Some(key));
    assert_eq!(stored_keypair(&base64_encode(&[1, 2, 3])), None);
    assert_eq!(stored_keypair("%%%"), None);
}

#[test]
fn focus_cycles_through_fields_and_buttons() {
    let mut app = fresh();
    app.handle_key(key(KeyInput::Tab));
    assert_eq!(app.focus, Focus::Setting(1));
    app.handle_key(key(KeyInput::Down));
    assert_eq!(app.focus, Focus::SaveButton);
    app.handle_key(key(KeyInput::Tab));
    assert_eq!(app.focus, Focus::CancelButton);
    app.handle_key(key(KeyInput::Tab));
    assert_eq!(app.focus, Focus::Setting(0));
    app.handle_key(key(KeyInput::Up));
    assert_eq!(app.focus, Focus::CancelButton);
    app.handle_key(key(KeyInput::BackTab));
    assert_eq!(app.focus, Focus::SaveButton);
}

#[test]
fn typing_a_name_checks_it() {
    let mut app = fresh();
    let action = app.handle_key(key(KeyInput::Char('a')));
    assert_eq!(action, SetupAction::CheckUsername { username: "a".to_string() });
    assert_eq!(app.username_status, Some("Checking...".to_string()));
    app.username_check_finished(Ok(true));
    assert_eq!(app.username_status, Some("✓ Available".to_string()));
    app.username_check_finished(Ok(false));
    assert_eq!(app.username_status, Some("✗ Not available".to_string()));
    app.username_check_finished(Err(TrackerError::ServerError));
    assert_eq!(app.username_status, Some("✗ Server error".to_string()));
    assert_eq!(app.handle_key(key(KeyInput::Backspace)), SetupAction::Nothing);
    assert_eq!(app.fields[0].value, "");
    assert_eq!(app.handle_key(key(KeyInput::Char('b'))), SetupAction::CheckUsername { username: "b".to_string() });
}

#[test]
fn registering_needs_a_keypair() {
    let mut app = fresh();
    app.handle_key(key(KeyInput::Char('z')));
    assert_eq!(app.handle_key(key(KeyInput::Enter)), SetupAction::Nothing);
    assert_eq!(app.username_status, Some("✗ Please generate a private key first".to_string()));
    // Generate a key pair on the second field, then register.
    app.handle_key(key(KeyInput::Tab));
    assert_eq!(app.handle_key(key(KeyInput::Enter)), SetupAction::Nothing);
    let kp = app.keypair.clone().expect("a key pair was generated");
    assert_eq!(kp.len(), 68);
    assert_eq!(app.fields[1].value, base64_encode(&kp));
    app.handle_key(key(KeyInput::BackTab));
    assert_eq!(
        app.handle_key(key(KeyInput::Enter)),
        SetupAction::Register { key: kp, username: "z".to_string() }
    );
    assert_eq!(app.username_status, Some("Registering...".to_string()));
    app.registration_finished(Ok(()));
    assert_eq!(app.username_status, Some("✓ Registered!".to_string()));
    assert_eq!(app.focus, Focus::Setting(1));
    app.registration_finished(Err(TrackerError::UsernameNotAvailable));
    assert_eq!(app.username_status, Some("✗ Error: Username not available".to_string()));
}

#[test]
fn save_and_cancel_buttons() {
    let mut app = fresh();
    app.focus = Focus::SaveButton;
    app.handle_key(key(KeyInput::Enter));
    assert!(app.should_save && app.should_quit);
    let mut other = fresh();
    other.focus = Focus::CancelButton;
    other.handle_key(key(KeyInput::Enter));
    assert!(other.should_quit && !other.should_save);
    let mut esc = fresh();
    esc.handle_key(key(KeyInput::Esc));
    assert!(esc.should_quit && !esc.should_save);
}

#[test]
fn buttons_keep_fields_and_focus() {
    let mut app = fresh();
    app.handle_key(key(KeyInput::Char('q')));
    app.focus = Focus::SaveButton;
    app.handle_key(key(KeyInput::Enter));
    assert_eq!(app.focus, Focus::SaveButton);
    assert_eq!(app.fields[0].value, "q");
    let mut other = fresh();
    other.handle_key(key(KeyInput::Char('w')));
    other.focus = Focus::CancelButton;
    other.handle_key(key(KeyInput::Enter));
    assert_eq!(other.focus, Focus::CancelButton);
    assert_eq!(other.fields[0].value, "w");
}

#[test]
fn moving_the_focus_changes_nothing_else() {
    let mut app = fresh();
    app.handle_key(key(KeyInput::Char('q')));
    for code in [KeyInput::Tab, KeyInput::Down, KeyInput::BackTab, KeyInput::Up] {
        assert_eq!(app.handle_key(key(code)), SetupAction::Nothing);
        assert!(!app.should_quit && !app.should_save);
        assert_eq!(app.fields[0].value, "q");
        assert_eq!(app.keypair, None);
    }
}

#[test]
fn enter_on_the_keypair_field_generates_a_fresh_one() {
    let mut app = fresh();
    app.focus = Focus::Setting(1);
    app.handle_key(key(KeyInput::Enter));
    let first = app.fields[1].value.clone();
    app.handle_key(key(KeyInput::Enter));
    let second = app.fields[1].value.clone();
    assert_ne!(first, second);
    assert_eq!(app.keypair.clone().map(|k| base64_encode(&k)), Some(second));
    assert_eq!(app.fields[0].value, "");
}

#[test]
fn settings_to_save_from_fields() {
    let mut app = fresh();
    app.handle_key(key(KeyInput::Char('q')));
    let s = app.settings_to_save();
    assert_eq!(s.get(SettingName::Name), Some(&SettingValue::String(Some("q".to_string()))));
    assert_eq!(s.get(SettingName::KeyPair), Some(&SettingValue::String(None)));
}

#[test]
fn saved_fields_read_back() {
    let mut app = fresh();
    for c in "neo".chars() {
        app.handle_key(key(KeyInput::Char(c)));
    }
    let saved = app.settings_to_save();
    let reopened = SetupApp::new("t".to_string(), Some(saved));
    assert_eq!(reopened.fields[0].value, "neo");
    assert_eq!(reopened.fields[1].value, "");
}
