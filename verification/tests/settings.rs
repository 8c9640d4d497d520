use p2pchat::bridge::{base64_decode, base64_encode, generate_ed25519_keypair, keypair_encoding_valid};
use p2pchat::settings::{
    check_keypair_setting, keypair_encoding, own_name, saved_keypair, setting_definitions, Generateable, KeyPairSetting, KeypairSettingError, NotAString,
    SettingGenerator, SettingInput, SettingMap, SettingName, SettingValue, Settings,
};

#[test]
fn definitions_list_name_then_keypair() {
    let defs = setting_definitions();
    assert_eq!(defs.len(), 2);
    assert_eq!(defs[0].name, SettingName::Name);
    assert_eq!(defs[0].label, "Name");
    assert_eq!(defs[0].input, SettingInput::HumanInput);
    assert_eq!(defs[1].name, SettingName::KeyPair);
    assert_eq!(defs[1].label, "Keypair");
    assert_eq!(defs[1].input, SettingInput::Generated(SettingGenerator::KeyPair));
    assert_eq!(defs[1].default_value, SettingValue::String(None));
}

#[test]
fn setting_map_operations() {
    let mut m: SettingMap<u8> = SettingMap::new();
    assert!(!m.contains_key(SettingName::Name));
    m.insert(SettingName::KeyPair, 2);
    m.insert(SettingName::Name, 1);
    m.insert(SettingName::Name, 3);
    assert_eq!(m.get(SettingName::Name), Some(&3));
    assert_eq!(m.clone().into_pairs(), vec![(SettingName::Name, 3), (SettingName::KeyPair, 2)]);
    assert_eq!(m.remove(SettingName::KeyPair), Some(2));
    assert_eq!(m.get(SettingName::KeyPair), None);
}

#[test]
fn defaults_are_unset() {
    let d = Settings::defaults();
    assert_eq!(d.get(SettingName::Name), Some(&SettingValue::String(None)));
    assert_eq!(d.get(SettingName::KeyPair), Some(&SettingValue::String(None)));
}

#[test]
fn completion_fills_missing_and_keeps_saved() {
    let mut user = SettingMap::new();
    user.insert(SettingName::Name, SettingValue::String(Some("ann".to_string())));
    let c = Settings::complete(user);
    assert_eq!(c.get(SettingName::Name), Some(&SettingValue::String(Some("ann".to_string()))));
    assert_eq!(c.get(SettingName::KeyPair), Some(&SettingValue::String(None)));
}

#[test]
fn completion_turns_keypair_bytes_into_base64() {
    let mut user = SettingMap::new();
    user.insert(SettingName::KeyPair, SettingValue::Bytes(Some(vec![1, 2, 3])));
    let c = Settings::complete(user);
    assert_eq!(c.get(SettingName::KeyPair), Some(&SettingValue::String(Some("AQID".to_string()))));
    assert_eq!(saved_keypair(&c), Err(KeypairSettingError::NotAKeypair));
    // Completing again changes nothing.
    let again = Settings::complete(c.clone());
    assert_eq!(again, c);
}

#[test]
fn keypair_encoding_cases() {
    let mut m = SettingMap::new();
    assert_eq!(check_keypair_setting(&m), Err(KeypairSettingError::Missing));
    assert_eq!(saved_keypair(&m), Err(KeypairSettingError::Missing));
    m.insert(SettingName::KeyPair, SettingValue::String(None));
    assert_eq!(check_keypair_setting(&m), Err(KeypairSettingError::Missing));
    m.insert(SettingName::KeyPair, SettingValue::Bool(true));
    assert_eq!(check_keypair_setting(&m), Err(KeypairSettingError::Missing));
    m.insert(SettingName::KeyPair, SettingValue::String(Some("***".to_string())));
    assert_eq!(check_keypair_setting(&m), Err(KeypairSettingError::NotBase64));
    assert_eq!(saved_keypair(&m), Err(KeypairSettingError::NotBase64));
    m.insert(SettingName::KeyPair, SettingValue::String(Some(base64_encode(&[7, 8]))));
    assert_eq!(check_keypair_setting(&m), Err(KeypairSettingError::NotAKeypair));
    m.insert(SettingName::KeyPair, SettingValue::Bytes(Some(vec![9])));
    assert_eq!(check_keypair_setting(&m), Err(KeypairSettingError::NotAKeypair));
    let key = generate_ed25519_keypair();
    m.insert(SettingName::KeyPair, SettingValue::String(Some(base64_encode(&key))));
    assert_eq!(check_keypair_setting(&m), Ok(()));
    assert_eq!(keypair_encoding(&m), key);
    assert_eq!(saved_keypair(&m), Ok(key.clone()));
    m.insert(SettingName::KeyPair, SettingValue::Bytes(Some(key.clone())));
    assert_eq!(check_keypair_setting(&m), Ok(()));
    assert_eq!(keypair_encoding(&m), key);
}

#[test]
fn generated_keypair_is_base64_of_68_bytes() {
    let v = KeyPairSetting::generate_value();
    let text = v.clone().try_into_string().unwrap();
    assert_eq!(base64_decode(&text).unwrap().len(), 68);
    let g = SettingGenerator::KeyPair.generate();
    assert!(matches!(g, SettingValue::String(Some(_))));
}

#[test]
fn generated_keypair_reads_back_as_a_keypair() {
    let text = KeyPairSetting::generate_value().try_into_string().unwrap();
    assert!(keypair_encoding_valid(&base64_decode(&text).unwrap()));
    let other = SettingGenerator::KeyPair.generate().try_into_string().unwrap();
    assert!(keypair_encoding_valid(&base64_decode(&other).unwrap()));
    assert_ne!(text, other);
}

#[test]
fn only_set_texts_convert() {
    assert_eq!(SettingValue::String(Some("x".to_string())).try_into_string(), Ok("x".to_string()));
    assert_eq!(SettingValue::String(None).try_into_string(), Err(NotAString));
    assert_eq!(SettingValue::Int(3).try_into_string(), Err(NotAString));
}

#[test]
fn own_name_setting() {
    let mut m = SettingMap::new();
    m.insert(SettingName::Name, SettingValue::String(Some("kim".to_string())));
    assert_eq!(own_name(&m), Some("kim".to_string()));
    m.insert(SettingName::Name, SettingValue::String(None));
    assert_eq!(own_name(&m), None);
}

#[test]
fn loading_uses_defaults_or_completes() {
    assert_eq!(Settings::load(None), Settings::defaults());
    let mut user = SettingMap::new();
    user.insert(SettingName::Name, SettingValue::String(Some("ann".to_string())));
    assert_eq!(Settings::load(Some(user.clone())), Settings::complete(user));
}
