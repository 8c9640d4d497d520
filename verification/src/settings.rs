//! The node's settings: what can be set, the defaults, how settings read from
//! disk are completed, and how edits in the setup screen are applied.
use vstd::prelude::*;
use crate::bridge::{
    base64_decode, base64_encode, base64_standard_decode, base64_standard_encode, generate_ed25519_keypair,
    is_keypair_encoding, keypair_encoding_valid,
};

verus! {

/// The value of a setting.
#[derive(Debug, Clone, PartialEq, Eq)]
pub enum SettingValue {
    Int(i32),
    Bool(bool),
    String(Option<String>),
    Bytes(Option<Vec<u8>>),
}

/// The meaning of a setting value: its texts and bytes taken as sequences.
pub ghost enum SettingValueView {
    Int(i32),
    Bool(bool),
    String(Option<Seq<char>>),
    Bytes(Option<Seq<u8>>),
}

impl View for SettingValue {
    type V = SettingValueView;

    open spec fn view(&self) -> SettingValueView {
        match self {
            SettingValue::Int(i) => SettingValueView::Int(*i),
            SettingValue::Bool(b) => SettingValueView::Bool(*b),
            SettingValue::String(s) => SettingValueView::String(
                match s {
                    Some(t) => Some(t@),
                    None => None,
                },
            ),
            SettingValue::Bytes(b) => SettingValueView::Bytes(
                match b {
                    Some(v) => Some(v@),
                    None => None,
                },
            ),
        }
    }
}

/// The meanings of the values of a map of settings.
pub open spec fn values_view(m: Map<SettingName, SettingValue>) -> Map<SettingName, SettingValueView> {
    m.map_values(|v: SettingValue| v@)
}

/// What can be set.
#[derive(Debug, Clone, Copy, PartialEq, Eq, Hash, Structural)]
pub enum SettingName {
    Name,
    KeyPair,
}

/// A value that is not a set text.
#[derive(Debug, Clone, Copy, PartialEq, Eq, Structural)]
pub struct NotAString;

impl SettingValue {
    /// The text of a setting that holds one.
    pub fn try_into_string(self) -> (r: Result<String, NotAString>)
        ensures
            match self {
                SettingValue::String(Some(s)) => r == Ok::<String, NotAString>(s),
                _ => r == Err::<String, NotAString>(NotAString),
            },
    {
        if let SettingValue::String(Some(s)) = self {
            Ok(s)
        } else {
            Err(NotAString)
        }
    }
}

/// One value for each setting name that has one.
#[derive(Debug, Clone, PartialEq, Eq)]
pub struct SettingMap<V> {
    name: Option<V>,
    key_pair: Option<V>,
}

impl<V> SettingMap<V> {
    /// The values by setting name.
    pub closed spec fn view(&self) -> Map<SettingName, V> {
        Map::new(
            |n: SettingName| match n {
                SettingName::Name => self.name is Some,
                SettingName::KeyPair => self.key_pair is Some,
            },
            |n: SettingName| match n {
                SettingName::Name => self.name->0,
                SettingName::KeyPair => self.key_pair->0,
            },
        )
    }

    /// A map with no values.
    pub fn new() -> (r: Self)
        ensures
            r.view() == Map::<SettingName, V>::empty(),
    {
        let r = SettingMap { name: None, key_pair: None };
        assert(r.view() =~= Map::<SettingName, V>::empty());
        r
    }

    /// The value of `n`, if it has one.
    pub fn get(&self, n: SettingName) -> (r: Option<&V>)
        ensures
            match r {
                Some(v) => self.view().dom().contains(n) && *v == self.view()[n],
                None => !self.view().dom().contains(n),
            },
    {
        match n {
            SettingName::Name => self.name.as_ref(),
            SettingName::KeyPair => self.key_pair.as_ref(),
        }
    }

    /// Whether `n` has a value.
    pub fn contains_key(&self, n: SettingName) -> (r: bool)
        ensures
            r == self.view().dom().contains(n),
    {
        match n {
            SettingName::Name => self.name.is_some(),
            SettingName::KeyPair => self.key_pair.is_some(),
        }
    }

    /// Gives `n` the value `v`, replacing any value it had.
    pub fn insert(&mut self, n: SettingName, v: V)
        ensures
            final(self).view() == old(self).view().insert(n, v),
    {
        match n {
            SettingName::Name => {
                self.name = Some(v);
            },
            SettingName::KeyPair => {
                self.key_pair = Some(v);
            },
        }
        assert(self.view() =~= old(self).view().insert(n, v));
    }

    /// Takes the value of `n` out of the map.
    pub fn remove(&mut self, n: SettingName) -> (r: Option<V>)
        ensures
            final(self).view() == old(self).view().remove(n),
            match r {
                Some(v) => old(self).view().dom().contains(n) && v == old(self).view()[n],
                None => !old(self).view().dom().contains(n),
            },
    {
        let r = match n {
            SettingName::Name => self.name.take(),
            SettingName::KeyPair => self.key_pair.take(),
        };
        assert(self.view() =~= old(self).view().remove(n));
        r
    }

    /// The pairs of the map, setting `Name` first.
    pub fn into_pairs(self) -> (r: Vec<(SettingName, V)>)
        ensures
            forall|i: int| 0 <= i < r@.len() ==> {
                &&& self.view().dom().contains(#[trigger] r@[i].0)
                &&& self.view()[r@[i].0] == r@[i].1
            },
            forall|n: SettingName| #[trigger] self.view().dom().contains(n) ==> exists|i: int|
                0 <= i < r@.len() && r@[i].0 == n,
            forall|i: int, j: int| 0 <= i < j < r@.len() ==> r@[i].0 != r@[j].0,
    {
        let ghost m = self.view();
        let mut r: Vec<(SettingName, V)> = Vec::new();
        if let Some(v) = self.name {
            r.push((SettingName::Name, v));
        }
        if let Some(v) = self.key_pair {
            r.push((SettingName::KeyPair, v));
        }
        proof {
            assert forall|n: SettingName| #[trigger] m.dom().contains(n) implies exists|i: int|
                0 <= i < r@.len() && r@[i].0 == n by {
                if n == SettingName::Name {
                    assert(r@[0].0 == n);
                } else {
                    assert(r@[r@.len() - 1].0 == n);
                }
            }
        }
        r
    }
}

/// Where the value of a setting comes from in the setup screen.
#[derive(Debug, Clone, Copy, PartialEq, Eq, Structural)]
pub enum SettingInput {
    /// The user types it.
    HumanInput,
    /// It is generated.
    Generated(SettingGenerator),
}

/// The generators of setting values.
#[derive(Debug, Clone, Copy, PartialEq, Eq, Structural)]
pub enum SettingGenerator {
    /// A fresh Ed25519 key pair.
    KeyPair,
}

/// A setting as the setup screen shows it.
#[derive(Debug, Clone, PartialEq, Eq)]
pub struct SettingDefinition {
    pub name: SettingName,
    pub label: &'static str,
    pub default_value: SettingValue,
    pub input: SettingInput,
}

/// The definitions of all settings: the name, typed by the user, and the key
/// pair, generated; neither is set by default.
pub open spec fn definitions_spec(d: Seq<SettingDefinition>) -> bool {
    &&& d.len() == 2
    &&& d[0].name == SettingName::Name
    &&& d[0].label@ == "Name"@
    &&& d[0].default_value == SettingValue::String(None)
    &&& d[0].input == SettingInput::HumanInput
    &&& d[1].name == SettingName::KeyPair
    &&& d[1].label@ == "Keypair"@
    &&& d[1].default_value == SettingValue::String(None)
    &&& d[1].input == SettingInput::Generated(SettingGenerator::KeyPair)
}

/// The definitions of all settings, in the order the setup screen lists them.
pub fn setting_definitions() -> (r: Vec<SettingDefinition>)
    ensures
        definitions_spec(r@),
{
    let mut r: Vec<SettingDefinition> = Vec::new();
    r.push(
        SettingDefinition {
            name: SettingName::Name,
            label: "Name",
            default_value: SettingValue::String(None),
            input: SettingInput::HumanInput,
        },
    );
    r.push(
        SettingDefinition {
            name: SettingName::KeyPair,
            label: "Keypair",
            default_value: SettingValue::String(None),
            input: SettingInput::Generated(SettingGenerator::KeyPair),
        },
    );
    r
}

/// The settings when none were saved: every setting at its default, which for
/// both settings is "not set".
pub open spec fn defaults_spec() -> Map<SettingName, SettingValueView> {
    Map::empty().insert(SettingName::Name, SettingValueView::String(None)).insert(
        SettingName::KeyPair,
        SettingValueView::String(None),
    )
}

/// The saved settings completed with the defaults of the missing ones, and a
/// key pair saved as raw bytes turned into its base64 text.
pub open spec fn completed_spec(user: Map<SettingName, SettingValueView>) -> Map<SettingName, SettingValueView> {
    let filled = defaults_spec().union_prefer_right(user);
    match filled[SettingName::KeyPair] {
        SettingValueView::Bytes(Some(b)) => filled.insert(
            SettingName::KeyPair,
            SettingValueView::String(Some(base64_standard_encode(b))),
        ),
        _ => filled,
    }
}

/// The saved settings `user` with the default of each of the first `k`
/// definitions added where it is missing.
pub open spec fn filled_first_spec(k: nat, user: Map<SettingName, SettingValueView>) -> Map<SettingName, SettingValueView> {
    if k == 0 {
        user
    } else if k == 1 {
        if user.dom().contains(SettingName::Name) {
            user
        } else {
            user.insert(SettingName::Name, SettingValueView::String(None))
        }
    } else {
        defaults_spec().union_prefer_right(user)
    }
}

/// A copy of a setting value.
pub fn copy_value(v: &SettingValue) -> (r: SettingValue)
    ensures
        r@ == v@,
{
    match v {
        SettingValue::Int(i) => SettingValue::Int(*i),
        SettingValue::Bool(b) => SettingValue::Bool(*b),
        SettingValue::String(s) => SettingValue::String(
            match s {
                Some(t) => Some(t.clone()),
                None => None,
            },
        ),
        SettingValue::Bytes(b) => SettingValue::Bytes(
            match b {
                Some(bytes) => {
                    let c = bytes.clone();
                    assert(c@ =~= bytes@);
                    Some(c)
                },
                None => None,
            },
        ),
    }
}

/// Loading and completing settings.
pub struct Settings;

impl Settings {
    /// Every setting at its default value.
    pub fn defaults() -> (r: SettingMap<SettingValue>)
        ensures
            values_view(r.view()) == defaults_spec(),
    {
        let defs = setting_definitions();
        let mut r: SettingMap<SettingValue> = SettingMap::new();
        let mut i: usize = 0;
        while i < defs.len()
            invariant
                definitions_spec(defs@),
                i <= defs@.len(),
                i == 0 ==> values_view(r.view()) == Map::<SettingName, SettingValueView>::empty(),
                i == 1 ==> values_view(r.view()) == Map::<SettingName, SettingValueView>::empty().insert(
                    SettingName::Name,
                    SettingValueView::String(None),
                ),
                i == 2 ==> values_view(r.view()) == defaults_spec(),
            decreases defs@.len() - i,
        {
            let value = match &defs[i].default_value {
                SettingValue::String(None) => SettingValue::String(None),
                _ => SettingValue::String(None),
            };
            r.insert(defs[i].name, value);
            i = i + 1;
            proof {
                if i == 1 {
                    assert(values_view(r.view()) =~= Map::<SettingName, SettingValueView>::empty().insert(
                        SettingName::Name,
                        SettingValueView::String(None),
                    ));
                } else {
                    assert(values_view(r.view()) =~= defaults_spec());
                }
            }
        }
        r
    }

    /// The settings the node runs with, given those read from the settings
    /// file: the defaults when none could be read, otherwise those read,
    /// completed.
    pub fn load(saved: Option<SettingMap<SettingValue>>) -> (r: SettingMap<SettingValue>)
        requires
            saved matches Some(user) ==> (values_view(user.view()).dom().contains(SettingName::KeyPair) ==> (values_view(
                user.view(),
            )[SettingName::KeyPair] matches SettingValueView::Bytes(Some(b)) ==> b.len() <= usize::MAX / 2)),
        ensures
            match saved {
                None => values_view(r.view()) == defaults_spec(),
                Some(user) => values_view(r.view()) == completed_spec(values_view(user.view())),
            },
    {
        match saved {
            None => Settings::defaults(),
            Some(user) => Settings::complete(user),
        }
    }

    /// Completes settings read from disk: a setting that is missing gets its
    /// default, and a key pair saved as raw bytes is turned into its base64
    /// text. Key pairs longer than half the address space are not handled.
    pub fn complete(user: SettingMap<SettingValue>) -> (r: SettingMap<SettingValue>)
        requires
            values_view(user.view()).dom().contains(SettingName::KeyPair) ==> (values_view(
                user.view(),
            )[SettingName::KeyPair] matches SettingValueView::Bytes(Some(b)) ==> b.len() <= usize::MAX / 2),
        ensures
            values_view(r.view()) == completed_spec(values_view(user.view())),
            keypair_encoding_spec(values_view(r.view())) == keypair_encoding_spec(values_view(user.view())),
    {
        let mut settings = user;
        let ghost start = values_view(settings.view());
        let defs = setting_definitions();
        let mut i: usize = 0;
        while i < defs.len()
            invariant
                definitions_spec(defs@),
                i <= defs@.len(),
                values_view(settings.view()) == filled_first_spec(i as nat, start),
            decreases defs@.len() - i,
        {
            let ghost before = values_view(settings.view());
            let name = defs[i].name;
            if !settings.contains_key(name) {
                let v = copy_value(&defs[i].default_value);
                let ghost vv = v@;
                let ghost m0 = settings.view();
                settings.insert(name, v);
                proof {
                    assert(values_view(settings.view()) =~= values_view(m0).insert(name, vv));
                }
            }
            i = i + 1;
            proof {
                let after = values_view(settings.view());
                if i == 1 {
                    assert(name == SettingName::Name);
                    assert(before == start);
                    assert(after =~= filled_first_spec(1, start));
                } else {
                    assert(i == 2);
                    assert(name == SettingName::KeyPair);
                    assert(before == filled_first_spec(1, start));
                    let target = filled_first_spec(2, start);
                    assert forall|n: SettingName| after.dom().contains(n) == target.dom().contains(n) by {
                        match n {
                            SettingName::Name => {},
                            SettingName::KeyPair => {},
                        }
                    }
                    assert forall|n: SettingName| #[trigger] after.dom().contains(n) implies after[n] == target[n] by {
                        match n {
                            SettingName::Name => {
                                assert(after[n] == before[n]);
                            },
                            SettingName::KeyPair => {
                                if before.dom().contains(n) {
                                    assert(after[n] == before[n]);
                                    assert(before[n] == start[n]);
                                } else {
                                    assert(defs@[1].default_value@ == SettingValueView::String(None));
                                    assert(after[n] == SettingValueView::String(None));
                                }
                            },
                        }
                    }
                    assert(after =~= target);
                }
            }
        }
        proof {
            assert(filled_first_spec(2, start) =~= defaults_spec().union_prefer_right(start));
        }
        let key_pair = settings.remove(SettingName::KeyPair);
        match key_pair {
            Some(SettingValue::Bytes(Some(bytes))) => {
                proof {
                    assert(values_view(settings.view()).dom().contains(SettingName::KeyPair) == false);
                    assert(filled_first_spec(2, start)[SettingName::KeyPair] == SettingValueView::Bytes(Some(bytes@)));
                }
                let encoded = base64_encode(bytes.as_slice());
                proof {
                    assert(start.dom().contains(SettingName::KeyPair));
                    assert(start[SettingName::KeyPair] == SettingValueView::Bytes(Some(bytes@)));
                }
                settings.insert(SettingName::KeyPair, SettingValue::String(Some(encoded)));
            },
            Some(v) => {
                settings.insert(SettingName::KeyPair, v);
            },
            None => {},
        }
        proof {
            assert(values_view(settings.view()) =~= completed_spec(start));
        }
        settings
    }
}

/// A setting whose value can be generated.
pub trait Generateable {
    fn generate_value() -> SettingValue;
}

/// The key pair setting.
pub struct KeyPairSetting;

impl Generateable for KeyPairSetting {
    /// A fresh Ed25519 key pair, as the base64 text of its protobuf encoding.
    fn generate_value() -> (r: SettingValue)
        ensures
            r matches SettingValue::String(Some(text)) && exists|key: Seq<u8>|
                key.len() == 68 && is_keypair_encoding(key) && text@ == base64_standard_encode(key)
                    && base64_standard_decode(text@) == Some(key),
    {
        let key = generate_ed25519_keypair();
        let text = base64_encode(key.as_slice());
        SettingValue::String(Some(text))
    }
}

impl SettingGenerator {
    /// A freshly generated value: for the key pair, a fresh Ed25519 key pair
    /// as the base64 text of its protobuf encoding.
    pub fn generate(&self) -> (r: SettingValue)
        ensures
            r matches SettingValue::String(Some(text)) && exists|key: Seq<u8>|
                key.len() == 68 && is_keypair_encoding(key) && text@ == base64_standard_encode(key)
                    && base64_standard_decode(text@) == Some(key),
    {
        match self {
            SettingGenerator::KeyPair => KeyPairSetting::generate_value(),
        }
    }
}

/// Why the saved key pair cannot be used.
#[derive(Debug, Clone, Copy, PartialEq, Eq, Structural)]
pub enum KeypairSettingError {
    /// The key pair setting is missing or not set.
    Missing,
    /// The key pair text is not valid base64.
    NotBase64,
    /// The saved bytes are not the protobuf encoding of a key pair.
    NotAKeypair,
}

/// The protobuf encoding of the saved key pair: a text setting is read as
/// base64, a bytes setting is the encoding itself.
pub open spec fn keypair_encoding_spec(settings: Map<SettingName, SettingValueView>) -> Result<Seq<u8>, KeypairSettingError> {
    if !settings.dom().contains(SettingName::KeyPair) {
        Err(KeypairSettingError::Missing)
    } else {
        match settings[SettingName::KeyPair] {
            SettingValueView::String(Some(text)) => match base64_standard_decode(text) {
                Some(bytes) => Ok(bytes),
                None => Err(KeypairSettingError::NotBase64),
            },
            SettingValueView::Bytes(Some(bytes)) => Ok(bytes),
            _ => Err(KeypairSettingError::Missing),
        }
    }
}

/// Whether the saved key pair can be used, and if not, why: its encoding must
/// be there and read back as a key pair.
pub open spec fn keypair_setting_status(settings: Map<SettingName, SettingValueView>) -> Result<(), KeypairSettingError> {
    match keypair_encoding_spec(settings) {
        Ok(bytes) => if is_keypair_encoding(bytes) {
            Ok(())
        } else {
            Err(KeypairSettingError::NotAKeypair)
        },
        Err(e) => Err(e),
    }
}

/// Checks that the saved key pair can be used: the setting holds base64 text
/// or bytes, and these are the protobuf encoding of a key pair.
pub fn check_keypair_setting(settings: &SettingMap<SettingValue>) -> (r: Result<(), KeypairSettingError>)
    ensures
        r == keypair_setting_status(values_view(settings.view())),
{
    let valid = match settings.get(SettingName::KeyPair) {
        Some(SettingValue::String(Some(text))) => match base64_decode(text.as_str()) {
            Some(bytes) => keypair_encoding_valid(bytes.as_slice()),
            None => return Err(KeypairSettingError::NotBase64),
        },
        Some(SettingValue::Bytes(Some(bytes))) => keypair_encoding_valid(bytes.as_slice()),
        _ => return Err(KeypairSettingError::Missing),
    };
    if valid {
        Ok(())
    } else {
        Err(KeypairSettingError::NotAKeypair)
    }
}

/// The protobuf encoding of the saved key pair, which must be usable.
pub fn keypair_encoding(settings: &SettingMap<SettingValue>) -> (r: Vec<u8>)
    requires
        keypair_setting_status(values_view(settings.view())) is Ok,
    ensures
        keypair_encoding_spec(values_view(settings.view())) == Ok::<Seq<u8>, KeypairSettingError>(r@),
        is_keypair_encoding(r@),
{
    match settings.get(SettingName::KeyPair) {
        Some(SettingValue::String(Some(text))) => match base64_decode(text.as_str()) {
            Some(bytes) => bytes,
            None => Vec::new(),
        },
        Some(SettingValue::Bytes(Some(bytes))) => {
            let c = bytes.clone();
            assert(c@ =~= bytes@);
            c
        },
        _ => Vec::new(),
    }
}

/// The protobuf encoding of the saved key pair, once it is checked to be
/// usable; otherwise why it cannot be used.
pub fn saved_keypair(settings: &SettingMap<SettingValue>) -> (r: Result<Vec<u8>, KeypairSettingError>)
    ensures
        match keypair_setting_status(values_view(settings.view())) {
            Ok(()) => r matches Ok(b) && keypair_encoding_spec(values_view(settings.view())) == Ok::<
                Seq<u8>,
                KeypairSettingError,
            >(b@),
            Err(e) => r == Err::<Vec<u8>, KeypairSettingError>(e),
        },
{
    match check_keypair_setting(settings) {
        Ok(()) => Ok(keypair_encoding(settings)),
        Err(e) => Err(e),
    }
}

/// The name this node goes by, as its settings give it: the text of the name
/// setting, or `None` when the name is not set.
pub fn own_name(settings: &SettingMap<SettingValue>) -> (r: Option<String>)
    requires
        settings.view().dom().contains(SettingName::Name),
        settings.view()[SettingName::Name] is String,
    ensures
        match settings.view()[SettingName::Name] {
            SettingValue::String(v) => r == v,
            _ => false,
        },
{
    match settings.get(SettingName::Name) {
        Some(SettingValue::String(v)) => match v {
            Some(s) => Some(s.clone()),
            None => None,
        },
        _ => None,
    }
}

} // verus!
