//! The first-run setup screen: its fields, the focus, editing, generating the
//! key pair, and what its actions lead to.
use vstd::prelude::*;
use crate::bridge::{
    base64_decode, base64_standard_decode, base64_standard_encode, is_keypair_encoding, keypair_encoding_valid,
};
use crate::chat_tui::{KeyInput, KeyPress};
use crate::bridge::{string_pop, string_push};
use crate::settings::{
    SettingDefinition, SettingGenerator, SettingInput, SettingMap, SettingName, SettingValue, SettingValueView,
    definitions_spec, setting_definitions, values_view,
};
use crate::setup_tui::buffer_value_spec;
use crate::tracker::{TrackerError, tracker_error_text};

verus! {

/// Whether a field is typed or generated.
#[derive(Debug, Clone, Copy, PartialEq, Eq, Structural)]
pub enum SettingType {
    HumanInput,
    Generated,
}

/// What has the focus: a field, or one of the two buttons.
#[derive(Debug, Clone, Copy, PartialEq, Eq, Structural)]
pub enum Focus {
    Setting(usize),
    SaveButton,
    CancelButton,
}

/// A field of the setup screen.
#[derive(Debug)]
pub struct SettingField {
    pub name: SettingName,
    pub label: &'static str,
    pub value: String,
    pub setting_type: SettingType,
    pub generator: Option<SettingGenerator>,
}

/// The state of the setup screen. The key pair is held as its protobuf
/// encoding, and only when that encoding is valid.
#[derive(Debug)]
pub struct SetupApp {
    pub fields: Vec<SettingField>,
    pub focus: Focus,
    pub should_quit: bool,
    pub should_save: bool,
    pub http_tracker: String,
    pub keypair: Option<Vec<u8>>,
    pub username_status: Option<String>,
}

/// What the setup screen asks its caller to do.
#[derive(Debug, PartialEq, Eq)]
pub enum SetupAction {
    Nothing,
    /// Register `username` at the tracker, signing with the key pair encoded
    /// in `key`, then call [`SetupApp::registration_finished`].
    Register { key: Vec<u8>, username: String },
    /// Ask the tracker whether `username` is free, then call
    /// [`SetupApp::username_check_finished`].
    CheckUsername { username: String },
}

/// The key pair that a saved key pair text stands for: its base64 bytes, when
/// they are a key pair's encoding.
pub open spec fn stored_keypair_spec(text: Seq<char>) -> Option<Seq<u8>> {
    match base64_standard_decode(text) {
        Some(bytes) => if is_keypair_encoding(bytes) { Some(bytes) } else { None },
        None => None,
    }
}

/// The key pair that a saved key pair text stands for.
pub fn stored_keypair(text: &str) -> (r: Option<Vec<u8>>)
    ensures
        match r {
            Some(b) => stored_keypair_spec(text@) == Some(b@),
            None => stored_keypair_spec(text@) is None,
        },
{
    match base64_decode(text) {
        Some(bytes) => {
            if keypair_encoding_valid(bytes.as_slice()) {
                Some(bytes)
            } else {
                None
            }
        },
        None => None,
    }
}

/// The text a field starts with: the saved text of its setting, if any.
pub open spec fn field_text_spec(existing: Option<Map<SettingName, SettingValueView>>, n: SettingName) -> Seq<char> {
    match existing {
        Some(m) => if m.dom().contains(n) {
            match m[n] {
                SettingValueView::String(Some(s)) => s,
                _ => seq![],
            }
        } else {
            seq![]
        },
        None => seq![],
    }
}

/// What the setup screen saves for a field it shows again in that field when
/// it is opened on the saved settings: the text, or nothing for an empty field.
pub proof fn law_saved_field_reads_back(m: Map<SettingName, SettingValueView>, n: SettingName, text: Seq<char>)
    requires
        m.dom().contains(n),
        m[n] == buffer_value_spec(text),
    ensures
        field_text_spec(Some(m), n) == text,
{
}

/// The focus after `next_focus`, with `n` fields.
pub open spec fn next_focus_spec(f: Focus, n: nat) -> Focus {
    match f {
        Focus::Setting(i) => if i + 1 < n { Focus::Setting((i + 1) as usize) } else { Focus::SaveButton },
        Focus::SaveButton => Focus::CancelButton,
        Focus::CancelButton => if n == 0 { Focus::SaveButton } else { Focus::Setting(0) },
    }
}

/// The focus after `prev_focus`, with `n` fields.
pub open spec fn prev_focus_spec(f: Focus, n: nat) -> Focus {
    match f {
        Focus::Setting(i) => if i == 0 { Focus::CancelButton } else { Focus::Setting((i - 1) as usize) },
        Focus::SaveButton => if n == 0 { Focus::CancelButton } else { Focus::Setting((n - 1) as usize) },
        Focus::CancelButton => Focus::SaveButton,
    }
}

/// A focus on a field points at one.
pub open spec fn focus_valid_spec(f: Focus, n: nat) -> bool {
    f matches Focus::Setting(i) ==> i < n
}

/// Moving the focus forward and then back, or back and then forward, returns
/// it to where it was, and both moves keep a valid focus valid.
pub proof fn law_focus_cycle(f: Focus, n: nat)
    requires
        focus_valid_spec(f, n),
        n < usize::MAX,
    ensures
        prev_focus_spec(next_focus_spec(f, n), n) == f,
        next_focus_spec(prev_focus_spec(f, n), n) == f,
        focus_valid_spec(next_focus_spec(f, n), n),
        focus_valid_spec(prev_focus_spec(f, n), n),
{
}

/// Whether the focus is on field `k`.
pub open spec fn focused_on(f: Focus, k: int) -> bool {
    match f {
        Focus::Setting(j) => j == k,
        _ => false,
    }
}

/// The text of a status line.
pub open spec fn opt_text(o: Option<String>) -> Option<Seq<char>> {
    match o {
        Some(s) => Some(s@),
        None => None,
    }
}

/// Whether `text` is the base64 text of a fresh Ed25519 key pair: of a
/// 68-byte protobuf encoding that reads back as a key pair.
pub open spec fn is_generated_key_text(text: Seq<char>) -> bool {
    exists|key: Seq<u8>| key.len() == 68 && is_keypair_encoding(key) && text == base64_standard_encode(key)
}

/// Every field of `n` but field `i` is as in `o`, and field `i` differs from
/// its old self in its value at most.
pub open spec fn only_value_changed(o: Seq<SettingField>, n: Seq<SettingField>, i: int) -> bool {
    &&& n.len() == o.len()
    &&& forall|k: int| 0 <= k < n.len() && k != i ==> #[trigger] n[k] == o[k]
    &&& n[i].name == o[i].name
    &&& n[i].label == o[i].label
    &&& n[i].setting_type == o[i].setting_type
    &&& n[i].generator == o[i].generator
}

/// What enter does, from state `o` to state `n`, asking for `r`.
pub open spec fn enter_outcome(o: SetupApp, n: SetupApp, r: SetupAction) -> bool {
    match o.focus {
        Focus::SaveButton => {
            &&& n.should_save && n.should_quit && r == SetupAction::Nothing
            &&& n.fields@ == o.fields@
            &&& n.focus == o.focus
            &&& n.keypair == o.keypair
            &&& n.username_status == o.username_status
        },
        Focus::CancelButton => {
            &&& n.should_quit && n.should_save == o.should_save && r == SetupAction::Nothing
            &&& n.fields@ == o.fields@
            &&& n.focus == o.focus
            &&& n.keypair == o.keypair
            &&& n.username_status == o.username_status
        },
        Focus::Setting(i) => {
            let f = o.fields@[i as int];
            &&& n.should_quit == o.should_quit
            &&& n.should_save == o.should_save
            &&& if f.setting_type == SettingType::Generated {
                &&& r == SetupAction::Nothing
                &&& n.focus == o.focus
                &&& n.username_status == o.username_status
                &&& only_value_changed(o.fields@, n.fields@, i as int)
                &&& (f.generator is None ==> n.fields@[i as int].value@ == f.value@ && n.keypair == o.keypair)
                &&& (f.generator is Some ==> is_generated_key_text(n.fields@[i as int].value@))
                &&& (f.generator is Some && f.name == SettingName::KeyPair ==> opt_bytes(n.keypair)
                    == stored_keypair_spec(n.fields@[i as int].value@))
                &&& (f.generator is Some && f.name != SettingName::KeyPair ==> n.keypair == o.keypair)
            } else if f.name == SettingName::Name && f.value@.len() > 0 {
                &&& n.focus == o.focus
                &&& n.fields@ == o.fields@
                &&& n.keypair == o.keypair
                &&& match o.keypair {
                    Some(k) => (r matches SetupAction::Register { key, username } && key@ == k@
                        && username@ == f.value@) && opt_text(n.username_status) == Some("Registering..."@),
                    None => r == SetupAction::Nothing && opt_text(n.username_status) == Some(
                        "✗ Please generate a private key first"@,
                    ),
                }
            } else {
                &&& r == SetupAction::Nothing
                &&& n.focus == next_focus_spec(o.focus, o.fields@.len())
                &&& n.fields@ == o.fields@
                &&& n.keypair == o.keypair
                &&& n.username_status == o.username_status
            }
        },
    }
}

/// What checking the focused field's name does, given the fields and the
/// focus, the status line before and after, and the action `r` asked for.
pub open spec fn check_outcome(
    fields: Seq<SettingField>,
    focus: Focus,
    before: Option<String>,
    after: Option<String>,
    r: SetupAction,
) -> bool {
    match focus {
        Focus::Setting(i) => if fields[i as int].name == SettingName::Name {
            if fields[i as int].value@.len() > 0 {
                (r matches SetupAction::CheckUsername { username } && username@ == fields[i as int].value@) && opt_text(after)
                    == Some("Checking..."@)
            } else {
                r == SetupAction::Nothing && after is None
            }
        } else {
            r == SetupAction::Nothing && after == before
        },
        _ => r == SetupAction::Nothing && after == before,
    }
}

/// The value of field `k` after typing `c` into the focused field of `o`.
pub open spec fn typed_value(o: SetupApp, k: int, c: char) -> Seq<char> {
    if focused_on(o.focus, k) && o.fields@[k].setting_type == SettingType::HumanInput {
        o.fields@[k].value@.push(c)
    } else {
        o.fields@[k].value@
    }
}

/// The value of field `k` after a backspace in the focused field of `o`.
pub open spec fn backspaced_value(o: SetupApp, k: int) -> Seq<char> {
    if focused_on(o.focus, k) && o.fields@[k].setting_type == SettingType::HumanInput && o.fields@[k].value@.len() > 0 {
        o.fields@[k].value@.drop_last()
    } else {
        o.fields@[k].value@
    }
}

/// Backspace undoes typing: after a character is typed into the focused
/// field, a backspace gives every field back the text it had.
pub proof fn law_setup_backspace_undoes_typing(o: SetupApp, m: SetupApp, c: char)
    requires
        m.same_but_values(&o),
        forall|k: int| 0 <= k < m.fields@.len() ==> #[trigger] m.fields@[k].value@ == typed_value(o, k, c),
    ensures
        forall|k: int| 0 <= k < o.fields@.len() ==> #[trigger] backspaced_value(m, k) == o.fields@[k].value@,
{
    assert forall|k: int| 0 <= k < o.fields@.len() implies #[trigger] backspaced_value(m, k) == o.fields@[k].value@ by {
        assert(m.fields@[k].value@ == typed_value(o, k, c));
        assert(m.fields@[k].name == o.fields@[k].name);
        assert(m.fields@[k].setting_type == o.fields@[k].setting_type);
        assert(o.fields@[k].value@.push(c).drop_last() =~= o.fields@[k].value@);
    }
}

impl SetupApp {
    /// The focus is on a field that exists or on a button.
    pub open spec fn focus_valid(&self) -> bool {
        focus_valid_spec(self.focus, self.fields@.len())
    }

    /// A setup screen for the settings `existing` read from disk, if any: a
    /// field for each setting, filled with its saved text, the focus on the
    /// first field, and the saved key pair when its text decodes to one.
    pub fn new(http_tracker: String, existing: Option<SettingMap<SettingValue>>) -> (r: SetupApp)
        ensures
            r.focus_valid(),
            r.fields@.len() == 2,
            r.fields@[0].name == SettingName::Name,
            r.fields@[0].label@ == "Name"@,
            r.fields@[0].value@ == field_text_spec(existing_view(existing), SettingName::Name),
            r.fields@[0].setting_type == SettingType::HumanInput,
            r.fields@[0].generator is None,
            r.fields@[1].name == SettingName::KeyPair,
            r.fields@[1].label@ == "Keypair"@,
            r.fields@[1].value@ == field_text_spec(existing_view(existing), SettingName::KeyPair),
            r.fields@[1].setting_type == SettingType::Generated,
            r.fields@[1].generator == Some(SettingGenerator::KeyPair),
            r.focus == Focus::Setting(0),
            !r.should_quit,
            !r.should_save,
            r.http_tracker == http_tracker,
            r.username_status is None,
            opt_bytes(r.keypair) == match existing {
                Some(m) => match values_view(m.view()).dom().contains(SettingName::KeyPair) {
                    true => match values_view(m.view())[SettingName::KeyPair] {
                        SettingValueView::String(Some(text)) => stored_keypair_spec(text),
                        _ => None,
                    },
                    false => None,
                },
                None => None,
            },
    {
        let defs = setting_definitions();
        let ghost ev = existing_view(existing);
        let mut fields: Vec<SettingField> = Vec::new();
        let mut i: usize = 0;
        while i < defs.len()
            invariant
                definitions_spec(defs@),
                i <= defs@.len(),
                fields@.len() == i,
                ev == existing_view(existing),
                forall|k: int| 0 <= k < i ==> {
                    let d = defs@[k];
                    &&& #[trigger] fields@[k].name == d.name
                    &&& fields@[k].label@ == d.label@
                    &&& fields@[k].value@ == field_text_spec(ev, d.name)
                    &&& fields@[k].setting_type == if d.input == SettingInput::HumanInput {
                        SettingType::HumanInput
                    } else {
                        SettingType::Generated
                    }
                    &&& fields@[k].generator == match d.input {
                        SettingInput::Generated(g) => Some(g),
                        SettingInput::HumanInput => None,
                    }
                },
            decreases defs@.len() - i,
        {
            let def = &defs[i];
            let value = match &existing {
                Some(m) => match m.get(def.name) {
                    Some(SettingValue::String(Some(s))) => s.clone(),
                    _ => String::new(),
                },
                None => String::new(),
            };
            proof {
                lemma_existing_view(existing, def.name);
            }
            let (setting_type, generator) = match def.input {
                SettingInput::HumanInput => (SettingType::HumanInput, None),
                SettingInput::Generated(g) => (SettingType::Generated, Some(g)),
            };
            fields.push(SettingField { name: def.name, label: def.label, value, setting_type, generator });
            i = i + 1;
        }
        let keypair = match &existing {
            Some(m) => match m.get(SettingName::KeyPair) {
                Some(SettingValue::String(Some(key))) => stored_keypair(key.as_str()),
                _ => None,
            },
            None => None,
        };
        proof {
            lemma_existing_view(existing, SettingName::KeyPair);
        }
        SetupApp {
            fields,
            focus: Focus::Setting(0),
            should_quit: false,
            should_save: false,
            http_tracker,
            keypair,
            username_status: None,
        }
    }

    /// Moves the focus to the next field, then the save button, then the
    /// cancel button, then back to the first field.
    pub fn next_focus(&mut self)
        ensures
            final(self).focus == next_focus_spec(old(self).focus, old(self).fields@.len()),
            final(self).fields@ == old(self).fields@,
            final(self).should_quit == old(self).should_quit,
            final(self).should_save == old(self).should_save,
            final(self).keypair == old(self).keypair,
            final(self).username_status == old(self).username_status,
            final(self).http_tracker == old(self).http_tracker,
    {
        self.focus = match self.focus {
            Focus::Setting(i) => {
                if i < self.fields.len() && i + 1 < self.fields.len() {
                    Focus::Setting(i + 1)
                } else {
                    Focus::SaveButton
                }
            },
            Focus::SaveButton => Focus::CancelButton,
            Focus::CancelButton => {
                if self.fields.len() == 0 {
                    Focus::SaveButton
                } else {
                    Focus::Setting(0)
                }
            },
        };
    }

    /// Moves the focus the other way round.
    pub fn prev_focus(&mut self)
        ensures
            final(self).focus == prev_focus_spec(old(self).focus, old(self).fields@.len()),
            final(self).fields@ == old(self).fields@,
            final(self).should_quit == old(self).should_quit,
            final(self).should_save == old(self).should_save,
            final(self).keypair == old(self).keypair,
            final(self).username_status == old(self).username_status,
            final(self).http_tracker == old(self).http_tracker,
    {
        self.focus = match self.focus {
            Focus::Setting(0) => Focus::CancelButton,
            Focus::Setting(i) => Focus::Setting(i - 1),
            Focus::SaveButton => {
                if self.fields.len() == 0 {
                    Focus::CancelButton
                } else {
                    Focus::Setting(self.fields.len() - 1)
                }
            },
            Focus::CancelButton => Focus::SaveButton,
        };
    }
}

/// The meanings of the values of optional settings.
pub open spec fn existing_view(existing: Option<SettingMap<SettingValue>>) -> Option<Map<SettingName, SettingValueView>> {
    match existing {
        Some(m) => Some(values_view(m.view())),
        None => None,
    }
}

proof fn lemma_existing_view(existing: Option<SettingMap<SettingValue>>, n: SettingName)
    ensures
        existing matches Some(m) ==> (m.view().dom().contains(n) ==> values_view(m.view())[n] == m.view()[n]@),
{
}

/// The bytes of an optional byte vector.
pub open spec fn opt_bytes(o: Option<Vec<u8>>) -> Option<Seq<u8>> {
    match o {
        Some(v) => Some(v@),
        None => None,
    }
}

impl SetupApp {
    /// Everything but the field values is as in `other`.
    pub open spec fn same_but_values(&self, other: &SetupApp) -> bool {
        &&& self.fields@.len() == other.fields@.len()
        &&& forall|i: int| 0 <= i < self.fields@.len() ==> {
            &&& #[trigger] self.fields@[i].name == other.fields@[i].name
            &&& self.fields@[i].label == other.fields@[i].label
            &&& self.fields@[i].setting_type == other.fields@[i].setting_type
            &&& self.fields@[i].generator == other.fields@[i].generator
        }
        &&& self.focus == other.focus
        &&& self.should_quit == other.should_quit
        &&& self.should_save == other.should_save
        &&& self.http_tracker == other.http_tracker
    }

    /// Replaces the value of field `i`.
    fn set_value(&mut self, i: usize, value: String)
        requires
            i < old(self).fields@.len(),
        ensures
            final(self).same_but_values(old(self)),
            final(self).fields@[i as int].value == value,
            forall|k: int| 0 <= k < final(self).fields@.len() && k != i ==> #[trigger] final(self).fields@[k] == old(self).fields@[k],
            final(self).keypair == old(self).keypair,
            final(self).username_status == old(self).username_status,
    {
        let f = self.fields.remove(i);
        self.fields.insert(i, SettingField {
            name: f.name,
            label: f.label,
            value,
            setting_type: f.setting_type,
            generator: f.generator,
        });
    }

    /// Types `c` into the focused field, when it is a typed one.
    pub fn handle_char(&mut self, c: char)
        requires
            old(self).focus_valid(),
        ensures
            final(self).same_but_values(old(self)),
            final(self).keypair == old(self).keypair,
            final(self).username_status == old(self).username_status,
            forall|k: int| 0 <= k < final(self).fields@.len() ==> #[trigger] final(self).fields@[k].value@ == typed_value(*old(self), k, c),
    {
        if let Focus::Setting(i) = self.focus {
            if self.fields[i].setting_type == SettingType::HumanInput {
                let mut v = self.fields[i].value.clone();
                string_push(&mut v, c);
                self.set_value(i, v);
            }
        }
    }

    /// Removes the last character of the focused field, when it is a typed one.
    pub fn handle_backspace(&mut self)
        requires
            old(self).focus_valid(),
        ensures
            final(self).same_but_values(old(self)),
            final(self).keypair == old(self).keypair,
            final(self).username_status == old(self).username_status,
            forall|k: int| 0 <= k < final(self).fields@.len() ==> #[trigger] final(self).fields@[k].value@ == backspaced_value(*old(self), k),
    {
        if let Focus::Setting(i) = self.focus {
            if self.fields[i].setting_type == SettingType::HumanInput {
                let mut v = self.fields[i].value.clone();
                string_pop(&mut v);
                self.set_value(i, v);
            }
        }
    }

    /// Enter: on a generated field, generates a new value (a new key pair
    /// also becomes the key pair used for registering); on the name field,
    /// when it is not empty, asks for the name to be registered, or says that
    /// a key pair is needed first; on another field, moves on. On the save
    /// button, ends the screen saving; on the cancel button, ends it.
    pub fn handle_enter(&mut self) -> (r: SetupAction)
        requires
            old(self).focus_valid(),
        ensures
            final(self).focus_valid(),
            final(self).fields@.len() == old(self).fields@.len(),
            enter_outcome(*old(self), *final(self), r),
    {
        match self.focus {
            Focus::Setting(i) => {
                if self.fields[i].setting_type == SettingType::Generated {
                    if let Some(generator) = self.fields[i].generator {
                        if let SettingValue::String(Some(val)) = generator.generate() {
                            let is_key = self.fields[i].name == SettingName::KeyPair;
                            let kp = if is_key { stored_keypair(val.as_str()) } else { None };
                            let ghost text = val@;
                            proof {
                                let key = choose|key: Seq<u8>| key.len() == 68 && is_keypair_encoding(key)
                                    && text == base64_standard_encode(key) && base64_standard_decode(text) == Some(key);
                                assert(is_generated_key_text(text));
                            }
                            self.set_value(i, val);
                            if is_key {
                                self.keypair = kp;
                            }
                            proof {
                                assert(self.fields@[i as int].value@ == text);
                            }
                        }
                    }
                    SetupAction::Nothing
                } else if self.fields[i].name == SettingName::Name && !self.fields[i].value.as_str().is_empty() {
                    match &self.keypair {
                        Some(k) => {
                            let key = k.clone();
                            proof {
                                assert(key@ =~= k@);
                            }
                            let username = self.fields[i].value.clone();
                            self.username_status = Some(String::from_str("Registering..."));
                            SetupAction::Register { key, username }
                        },
                        None => {
                            self.username_status = Some(String::from_str("✗ Please generate a private key first"));
                            SetupAction::Nothing
                        },
                    }
                } else {
                    self.next_focus();
                    SetupAction::Nothing
                }
            },
            Focus::SaveButton => {
                self.should_save = true;
                self.should_quit = true;
                SetupAction::Nothing
            },
            Focus::CancelButton => {
                self.should_quit = true;
                SetupAction::Nothing
            },
        }
    }
}

impl SetupApp {
    /// Reports how the registration went: success moves the focus on.
    pub fn registration_finished(&mut self, result: Result<(), TrackerError>)
        ensures
            final(self).fields@ == old(self).fields@,
            final(self).keypair == old(self).keypair,
            final(self).should_quit == old(self).should_quit,
            final(self).should_save == old(self).should_save,
            match result {
                Ok(_) => opt_text(final(self).username_status) == Some("✓ Registered!"@) && final(self).focus
                    == next_focus_spec(old(self).focus, old(self).fields@.len()),
                Err(e) => opt_text(final(self).username_status) == Some("✗ Error: "@ + tracker_error_text(e))
                    && final(self).focus == old(self).focus,
            },
    {
        match result {
            Ok(_) => {
                self.username_status = Some(String::from_str("✓ Registered!"));
                self.next_focus();
            },
            Err(e) => {
                self.username_status = Some(String::from_str("✗ Error: ").concat(e.message().as_str()));
            },
        }
    }

    /// After typing: a non-empty name is checked at the tracker; an empty one
    /// clears the status.
    pub fn check_username(&mut self) -> (r: SetupAction)
        requires
            old(self).focus_valid(),
        ensures
            final(self).fields@ == old(self).fields@,
            final(self).focus == old(self).focus,
            final(self).keypair == old(self).keypair,
            final(self).should_quit == old(self).should_quit,
            final(self).should_save == old(self).should_save,
            final(self).http_tracker == old(self).http_tracker,
            check_outcome(old(self).fields@, old(self).focus, old(self).username_status, final(self).username_status, r),
    {
        if let Focus::Setting(i) = self.focus {
            if self.fields[i].name == SettingName::Name {
                if !self.fields[i].value.as_str().is_empty() {
                    let username = self.fields[i].value.clone();
                    self.username_status = Some(String::from_str("Checking..."));
                    return SetupAction::CheckUsername { username };
                } else {
                    self.username_status = None;
                }
            }
        }
        SetupAction::Nothing
    }

    /// Reports whether the name is free.
    pub fn username_check_finished(&mut self, result: Result<bool, TrackerError>)
        ensures
            final(self).fields@ == old(self).fields@,
            final(self).focus == old(self).focus,
            final(self).keypair == old(self).keypair,
            opt_text(final(self).username_status) == Some(
                match result {
                    Ok(true) => "✓ Available"@,
                    Ok(false) => "✗ Not available"@,
                    Err(e) => "✗ "@ + tracker_error_text(e),
                },
            ),
    {
        let status = match result {
            Ok(true) => String::from_str("✓ Available"),
            Ok(false) => String::from_str("✗ Not available"),
            Err(e) => String::from_str("✗ ").concat(e.message().as_str()),
        };
        self.username_status = Some(status);
    }

    /// The settings to write out: each field's text, or "not set" when it is
    /// empty.
    pub fn settings_to_save(&self) -> (r: SettingMap<SettingValue>)
        ensures
            forall|n: SettingName| #[trigger] r.view().dom().contains(n) <==> exists|i: int|
                0 <= i < self.fields@.len() && self.fields@[i].name == n,
            forall|n: SettingName| #[trigger] r.view().dom().contains(n) ==> exists|i: int|
                0 <= i < self.fields@.len() && self.fields@[i].name == n && r.view()[n]@ == buffer_value_spec(
                    self.fields@[i].value@,
                ) && forall|j: int| i < j < self.fields@.len() ==> self.fields@[j].name != n,
    {
        let mut r: SettingMap<SettingValue> = SettingMap::new();
        let mut i: usize = 0;
        while i < self.fields.len()
            invariant
                i <= self.fields@.len(),
                forall|n: SettingName| #[trigger] r.view().dom().contains(n) <==> exists|k: int|
                    0 <= k < i && self.fields@[k].name == n,
                forall|n: SettingName| #[trigger] r.view().dom().contains(n) ==> exists|k: int|
                    0 <= k < i && self.fields@[k].name == n && r.view()[n]@ == buffer_value_spec(
                        self.fields@[k].value@,
                    ) && forall|j: int| k < j < i ==> self.fields@[j].name != n,
            decreases self.fields@.len() - i,
        {
            let v = crate::setup_tui::buffer_value(&self.fields[i].value);
            r.insert(self.fields[i].name, v);
            proof {
                let ii = i as int;
                assert forall|n: SettingName| #[trigger] r.view().dom().contains(n) implies exists|k: int|
                    0 <= k < ii + 1 && self.fields@[k].name == n && r.view()[n]@ == buffer_value_spec(
                        self.fields@[k].value@,
                    ) && forall|j: int| k < j < ii + 1 ==> self.fields@[j].name != n by {
                    if n == self.fields@[ii].name {
                        assert(self.fields@[ii].name == n);
                    } else {
                        let k = choose|k: int| 0 <= k < ii && self.fields@[k].name == n && r.view()[n]@ == buffer_value_spec(
                            self.fields@[k].value@,
                        ) && forall|j: int| k < j < ii ==> self.fields@[j].name != n;
                        assert(0 <= k < ii + 1 && self.fields@[k].name == n);
                    }
                }
                assert forall|n: SettingName| #[trigger] r.view().dom().contains(n) <==> exists|k: int|
                    0 <= k < ii + 1 && self.fields@[k].name == n by {
                    if exists|k: int| 0 <= k < ii + 1 && self.fields@[k].name == n {
                        let k = choose|k: int| 0 <= k < ii + 1 && self.fields@[k].name == n;
                        if k < ii {
                            assert(exists|k2: int| 0 <= k2 < ii && self.fields@[k2].name == n);
                        }
                    }
                }
            }
            i = i + 1;
        }
        r
    }

    /// A key press on the setup screen: control-c or escape ends it without
    /// saving; tab and down move the focus forward, back-tab and up move it
    /// back; enter acts on the focus; backspace deletes in the focused field; a
    /// character is typed into it and then the name is checked.
    pub fn handle_key(&mut self, key: KeyPress) -> (r: SetupAction)
        requires
            old(self).focus_valid(),
        ensures
            final(self).focus_valid(),
            (key.code == KeyInput::Char('c') && key.ctrl) || key.code == KeyInput::Esc ==> {
                &&& final(self).should_quit
                &&& final(self).should_save == old(self).should_save
                &&& r == SetupAction::Nothing
                &&& final(self).fields@ == old(self).fields@
                &&& final(self).focus == old(self).focus
                &&& final(self).keypair == old(self).keypair
                &&& final(self).username_status == old(self).username_status
            },
            key.code == KeyInput::Tab || key.code == KeyInput::Down ==> {
                &&& final(self).focus == next_focus_spec(old(self).focus, old(self).fields@.len())
                &&& r == SetupAction::Nothing
                &&& final(self).fields@ == old(self).fields@
                &&& final(self).should_quit == old(self).should_quit
                &&& final(self).should_save == old(self).should_save
                &&& final(self).keypair == old(self).keypair
                &&& final(self).username_status == old(self).username_status
            },
            key.code == KeyInput::BackTab || key.code == KeyInput::Up ==> {
                &&& final(self).focus == prev_focus_spec(old(self).focus, old(self).fields@.len())
                &&& r == SetupAction::Nothing
                &&& final(self).fields@ == old(self).fields@
                &&& final(self).should_quit == old(self).should_quit
                &&& final(self).should_save == old(self).should_save
                &&& final(self).keypair == old(self).keypair
                &&& final(self).username_status == old(self).username_status
            },
            key.code == KeyInput::Enter ==> enter_outcome(*old(self), *final(self), r),
            (key.code is Left || key.code is Right || key.code is Other) ==> {
                &&& r == SetupAction::Nothing
                &&& final(self).fields@ == old(self).fields@
                &&& final(self).focus == old(self).focus
                &&& final(self).should_quit == old(self).should_quit
                &&& final(self).should_save == old(self).should_save
                &&& final(self).keypair == old(self).keypair
                &&& final(self).username_status == old(self).username_status
            },
            key.code == KeyInput::Backspace ==> {
                &&& r == SetupAction::Nothing
                &&& final(self).same_but_values(old(self))
                &&& final(self).keypair == old(self).keypair
                &&& final(self).username_status == old(self).username_status
                &&& forall|k: int| 0 <= k < final(self).fields@.len() ==> #[trigger] final(self).fields@[k].value@
                    == backspaced_value(*old(self), k)
            },
            match key.code {
                KeyInput::Char(c) => !(c == 'c' && key.ctrl) ==> {
                    &&& final(self).same_but_values(old(self))
                    &&& final(self).keypair == old(self).keypair
                    &&& forall|k: int| 0 <= k < final(self).fields@.len() ==> #[trigger] final(self).fields@[k].value@
                        == typed_value(*old(self), k, c)
                    &&& check_outcome(
                        final(self).fields@,
                        final(self).focus,
                        old(self).username_status,
                        final(self).username_status,
                        r,
                    )
                },
                _ => true,
            },
    {
        match key.code {
            KeyInput::Char('c') if key.ctrl => {
                self.should_quit = true;
                SetupAction::Nothing
            },
            KeyInput::Esc => {
                self.should_quit = true;
                SetupAction::Nothing
            },
            KeyInput::Tab | KeyInput::Down => {
                self.next_focus();
                SetupAction::Nothing
            },
            KeyInput::BackTab | KeyInput::Up => {
                self.prev_focus();
                SetupAction::Nothing
            },
            KeyInput::Enter => self.handle_enter(),
            KeyInput::Backspace => {
                self.handle_backspace();
                SetupAction::Nothing
            },
            KeyInput::Char(c) => {
                self.handle_char(c);
                self.check_username()
            },
            _ => SetupAction::Nothing,
        }
    }
}

} // verus!
