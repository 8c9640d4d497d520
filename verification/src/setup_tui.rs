//! The settings editor: the text buffers behind the typed settings, and how
//! edits reach the settings.
use vstd::prelude::*;
use vstd::utf8::encode_utf8;
use crate::chat_tui::{KeyInput, KeyPress};
use crate::bridge::{base64_standard_decode, base64_standard_encode, is_keypair_encoding, string_pop, string_push};
use crate::settings::{
    SettingDefinition, SettingGenerator, SettingInput, SettingMap, SettingName, SettingValue, SettingValueView,
    values_view,
};
use crate::tui::types::ListSelection;

verus! {

/// The text that the editor starts from for setting `n`: its text when it is
/// set to one, otherwise nothing.
pub open spec fn buffer_text_spec(settings: Map<SettingName, SettingValueView>, n: SettingName) -> Seq<char> {
    if settings.dom().contains(n) {
        match settings[n] {
            SettingValueView::String(Some(s)) => s,
            _ => seq![],
        }
    } else {
        seq![]
    }
}

/// Whether some definition in `defs` is a typed setting named `n`.
pub open spec fn typed_setting(defs: Seq<SettingDefinition>, n: SettingName) -> bool {
    exists|i: int| 0 <= i < defs.len() && #[trigger] defs[i].name == n && defs[i].input == SettingInput::HumanInput
}

/// The value a setting gets from the text `buffer`: not set when the text is
/// empty, otherwise the text.
pub open spec fn buffer_value_spec(buffer: Seq<char>) -> SettingValueView {
    if buffer.len() == 0 {
        SettingValueView::String(None)
    } else {
        SettingValueView::String(Some(buffer))
    }
}

/// The value a setting gets from the text `buffer`.
pub fn buffer_value(buffer: &String) -> (r: SettingValue)
    ensures
        r@ == buffer_value_spec(buffer@),
{
    if buffer.as_str().is_empty() {
        SettingValue::String(None)
    } else {
        SettingValue::String(Some(buffer.clone()))
    }
}

/// A text buffer for every typed setting, holding the setting's current text.
pub fn init_input_buffers(definitions: &Vec<SettingDefinition>, settings: &SettingMap<SettingValue>) -> (r:
    SettingMap<String>)
    ensures
        forall|n: SettingName| #[trigger] r.view().dom().contains(n) <==> typed_setting(definitions@, n),
        forall|n: SettingName| #[trigger] r.view().dom().contains(n) ==> r.view()[n]@ == buffer_text_spec(
            values_view(settings.view()),
            n,
        ),
{
    let mut buffers: SettingMap<String> = SettingMap::new();
    let mut i: usize = 0;
    while i < definitions.len()
        invariant
            i <= definitions@.len(),
            forall|n: SettingName| #[trigger] buffers.view().dom().contains(n) <==> typed_setting(
                definitions@.take(i as int),
                n,
            ),
            forall|n: SettingName| #[trigger] buffers.view().dom().contains(n) ==> buffers.view()[n]@
                == buffer_text_spec(values_view(settings.view()), n),
        decreases definitions@.len() - i,
    {
        let def = &definitions[i];
        let ghost before = buffers.view();
        if def.input == SettingInput::HumanInput {
            let text = match settings.get(def.name) {
                Some(SettingValue::String(Some(s))) => s.clone(),
                _ => String::new(),
            };
            proof {
                assert(text@ == buffer_text_spec(values_view(settings.view()), def.name)) by {
                    if settings.view().dom().contains(def.name) {
                        assert(values_view(settings.view())[def.name] == settings.view()[def.name]@);
                    }
                }
            }
            buffers.insert(def.name, text);
        }
        proof {
            let pre = definitions@.take(i as int);
            let post = definitions@.take(i + 1);
            assert forall|n: SettingName| #[trigger] buffers.view().dom().contains(n) <==> typed_setting(post, n) by {
                if typed_setting(pre, n) {
                    let k = choose|k: int| 0 <= k < pre.len() && #[trigger] pre[k].name == n && pre[k].input == SettingInput::HumanInput;
                    assert(post[k] == pre[k]);
                }
                if typed_setting(post, n) {
                    let k = choose|k: int| 0 <= k < post.len() && #[trigger] post[k].name == n && post[k].input == SettingInput::HumanInput;
                    if k < i {
                        assert(pre[k] == post[k]);
                    }
                }
                if def.input == SettingInput::HumanInput && n == def.name {
                    assert(post[i as int] == definitions@[i as int]);
                }
            }
        }
        i = i + 1;
    }
    proof {
        assert(definitions@.take(definitions@.len() as int) =~= definitions@);
    }
    buffers
}

/// Puts the text of a typed setting's buffer into the settings, when the
/// setting holds text.
pub fn apply_input_buffer(settings: &mut SettingMap<SettingValue>, def: &SettingDefinition, buffer: &String)
    ensures
        def.default_value is String ==> values_view(final(settings).view()) == values_view(old(settings).view()).insert(
            def.name,
            buffer_value_spec(buffer@),
        ),
        !(def.default_value is String) ==> final(settings).view() == old(settings).view(),
{
    if let SettingValue::String(_) = def.default_value {
        let ghost m0 = settings.view();
        let value = buffer_value(buffer);
        settings.insert(def.name, value);
        assert(values_view(settings.view()) =~= values_view(m0).insert(def.name, buffer_value_spec(buffer@)));
    }
}

/// The settings as saving leaves them: every setting that has a buffer takes
/// the buffer's value, the others keep theirs.
pub open spec fn saved_view(settings: Map<SettingName, SettingValueView>, buffers: Map<SettingName, String>) -> Map<
    SettingName,
    SettingValueView,
> {
    Map::new(
        |n: SettingName| settings.dom().contains(n) || buffers.dom().contains(n),
        |n: SettingName| if buffers.dom().contains(n) {
            buffer_value_spec(buffers[n]@)
        } else {
            settings[n]
        },
    )
}

/// Puts the text of every buffer into the settings, as the setup screen does
/// before the settings are written out.
pub fn save_settings(settings: &mut SettingMap<SettingValue>, buffers: &SettingMap<String>)
    ensures
        values_view(final(settings).view()) == saved_view(values_view(old(settings).view()), buffers.view()),
        forall|n: SettingName| #[trigger] values_view(final(settings).view()).dom().contains(n) <==> (
            old(settings).view().dom().contains(n) || buffers.view().dom().contains(n)),
        forall|n: SettingName| #[trigger] buffers.view().dom().contains(n) ==> values_view(final(settings).view())[n]
            == buffer_value_spec(buffers.view()[n]@),
        forall|n: SettingName| !buffers.view().dom().contains(n) && #[trigger] old(settings).view().dom().contains(n)
            ==> final(settings).view()[n] == old(settings).view()[n],
{
    let ghost m0 = settings.view();
    if let Some(buf) = buffers.get(SettingName::Name) {
        let v = buffer_value(buf);
        settings.insert(SettingName::Name, v);
    }
    let ghost m1 = settings.view();
    if let Some(buf) = buffers.get(SettingName::KeyPair) {
        let v = buffer_value(buf);
        settings.insert(SettingName::KeyPair, v);
    }
    proof {
        assert forall|n: SettingName| #[trigger] buffers.view().dom().contains(n) implies values_view(settings.view())[n]
            == buffer_value_spec(buffers.view()[n]@) by {
            match n {
                SettingName::Name => {},
                SettingName::KeyPair => {},
            }
        }
        assert forall|n: SettingName| #[trigger] values_view(settings.view()).dom().contains(n) <==> (
            m0.dom().contains(n) || buffers.view().dom().contains(n)) by {
            match n {
                SettingName::Name => {},
                SettingName::KeyPair => {},
            }
        }
        assert forall|n: SettingName| !buffers.view().dom().contains(n) && #[trigger] m0.dom().contains(n)
            implies settings.view()[n] == m0[n] by {
            match n {
                SettingName::Name => {},
                SettingName::KeyPair => {},
            }
        }
        assert(values_view(settings.view()) =~= saved_view(values_view(m0), buffers.view()));
    }
}

/// Whether `c` is a control character (Unicode category Cc).
pub open spec fn is_control_spec(c: char) -> bool {
    (c as u32) <= 0x1f || (0x7f <= (c as u32) && (c as u32) <= 0x9f)
}

/// Whether `c` is a control character (Unicode category Cc: `U+0000` to
/// `U+001F` and `U+007F` to `U+009F`).
pub fn is_control(c: char) -> (r: bool)
    ensures
        r == is_control_spec(c),
{
    let n: u32 = c as u32;
    n <= 0x1f || (0x7f <= n && n <= 0x9f)
}

/// Whether a key press edits the selected setting: backspace, or a
/// printable character other than control-s, while the exit dialog is closed.
pub open spec fn edits_selected(exit_dialog_open: bool, key: KeyPress) -> bool {
    !exit_dialog_open && match key.code {
        KeyInput::Backspace => true,
        KeyInput::Char(c) => !is_control_spec(c) && !(c == 's' && key.ctrl_only()),
        _ => false,
    }
}

/// The state of the settings editor.
#[derive(Debug)]
pub struct SettingsEditor {
    pub settings: SettingMap<SettingValue>,
    pub input_buffers: SettingMap<String>,
    pub selected_setting: ListSelection,
    pub status: String,
    pub should_exit: bool,
    pub dirty: bool,
    pub show_exit_modal: bool,
}

/// What the settings editor asks its caller to do.
#[derive(Debug, Clone, Copy, PartialEq, Eq, Structural)]
pub enum EditorAction {
    Nothing,
    /// Write the editor's settings to disk.
    Save,
}

/// Editor `n` is editor `o`, as far as can be seen.
pub open spec fn same_editor(o: SettingsEditor, n: SettingsEditor) -> bool {
    &&& n.settings.view() == o.settings.view()
    &&& n.input_buffers.view() == o.input_buffers.view()
    &&& n.selected_setting == o.selected_setting
    &&& n.status@ == o.status@
    &&& n.should_exit == o.should_exit
    &&& n.dirty == o.dirty
    &&& n.show_exit_modal == o.show_exit_modal
}

/// Everything of editor `n` but the selection is as in editor `o`.
pub open spec fn same_but_selection(o: SettingsEditor, n: SettingsEditor) -> bool {
    &&& n.settings.view() == o.settings.view()
    &&& n.input_buffers.view() == o.input_buffers.view()
    &&& n.status@ == o.status@
    &&& n.should_exit == o.should_exit
    &&& n.dirty == o.dirty
    &&& n.show_exit_modal == o.show_exit_modal
}

/// What generating the value of setting `def` does, from editor `o` to
/// editor `n`: the setting holds a fresh key pair as the base64 text of its
/// 68-byte encoding, the editor is dirty, and the status says what is being
/// generated; the buffers, the selection and the exit flags stay.
pub open spec fn generated_outcome(o: SettingsEditor, n: SettingsEditor, def: SettingDefinition) -> bool {
    &&& n.settings.view().dom() == o.settings.view().dom().insert(def.name)
    &&& forall|x: SettingName| x != def.name && #[trigger] o.settings.view().dom().contains(x) ==> n.settings.view()[x]
        == o.settings.view()[x]
    &&& n.settings.view()[def.name] matches SettingValue::String(Some(text)) && exists|key: Seq<u8>|
        key.len() == 68 && is_keypair_encoding(key) && text@ == base64_standard_encode(key)
        && base64_standard_decode(text@) == Some(key)
    &&& n.dirty
    &&& n.status@ == "Generating "@ + def.label@ + "."@
    &&& n.input_buffers.view() == o.input_buffers.view()
    &&& n.selected_setting == o.selected_setting
    &&& n.should_exit == o.should_exit
    &&& n.show_exit_modal == o.show_exit_modal
}

/// What editing the buffer of setting `def` does, from editor `o` to editor
/// `n`: for a typed setting that has a buffer, the buffer gets `c` appended
/// (or loses its last character when `c` is `None`), a text setting takes the
/// buffer's value, and the editor becomes dirty; otherwise nothing changes.
/// The selection, the status, and the exit flags stay as they are.
pub open spec fn edit_outcome(o: SettingsEditor, n: SettingsEditor, def: SettingDefinition, c: Option<char>) -> bool {
    &&& def.input == SettingInput::HumanInput && o.input_buffers.view().dom().contains(def.name) ==> {
        let old_text = o.input_buffers.view()[def.name]@;
        let new_text = match c {
            Some(ch) => old_text.push(ch),
            None => if old_text.len() == 0 { old_text } else { old_text.drop_last() },
        };
        &&& n.input_buffers.view().dom() == o.input_buffers.view().dom()
        &&& n.input_buffers.view()[def.name]@ == new_text
        &&& forall|x: SettingName| x != def.name && #[trigger] o.input_buffers.view().dom().contains(x)
            ==> n.input_buffers.view()[x] == o.input_buffers.view()[x]
        &&& (def.default_value is String ==> values_view(n.settings.view()) == values_view(o.settings.view()).insert(
            def.name,
            buffer_value_spec(new_text),
        ))
        &&& (!(def.default_value is String) ==> n.settings.view() == o.settings.view())
        &&& n.dirty
    }
    &&& !(def.input == SettingInput::HumanInput && o.input_buffers.view().dom().contains(def.name)) ==> {
        &&& n.input_buffers.view() == o.input_buffers.view()
        &&& n.settings.view() == o.settings.view()
        &&& n.dirty == o.dirty
    }
    &&& n.selected_setting == o.selected_setting
    &&& n.status@ == o.status@
    &&& n.should_exit == o.should_exit
    &&& n.show_exit_modal == o.show_exit_modal
}

impl SettingsEditor {
    /// The selection is on a definition, if on anything.
    pub open spec fn selection_valid(&self, definitions: Seq<SettingDefinition>) -> bool {
        self.selected_setting.selected matches Some(i) ==> i < definitions.len()
    }

    /// An editor for `settings`: a buffer for every typed setting, the first
    /// setting selected, ready.
    pub fn new(definitions: &Vec<SettingDefinition>, settings: SettingMap<SettingValue>) -> (r: SettingsEditor)
        ensures
            r.settings == settings,
            forall|n: SettingName| #[trigger] r.input_buffers.view().dom().contains(n) <==> typed_setting(definitions@, n),
            forall|n: SettingName| #[trigger] r.input_buffers.view().dom().contains(n) ==> r.input_buffers.view()[n]@
                == buffer_text_spec(values_view(settings.view()), n),
            r.selected_setting.selected == Some(0usize),
            r.status@ == "Ready."@,
            !r.should_exit,
            !r.dirty,
            !r.show_exit_modal,
    {
        let input_buffers = init_input_buffers(definitions, &settings);
        SettingsEditor {
            settings,
            input_buffers,
            selected_setting: ListSelection::new().with_selected(Some(0)),
            status: String::from_str("Ready."),
            should_exit: false,
            dirty: false,
            show_exit_modal: false,
        }
    }

    /// Edits the buffer of typed setting `def` with `edit` (push `c`, or pop
    /// when `c` is `None`) and puts its text into the settings.
    fn edit_buffer(&mut self, def: &SettingDefinition, c: Option<char>)
        ensures
            edit_outcome(*old(self), *final(self), *def, c),
    {
        if def.input == SettingInput::HumanInput {
            if let Some(buf) = self.input_buffers.remove(def.name) {
                let mut buf = buf;
                match c {
                    Some(ch) => string_push(&mut buf, ch),
                    None => {
                        string_pop(&mut buf);
                    },
                }
                apply_input_buffer(&mut self.settings, def, &buf);
                self.input_buffers.insert(def.name, buf);
                self.dirty = true;
                proof {
                    assert(self.input_buffers.view().dom() =~= old(self).input_buffers.view().dom());
                }
            } else {
                proof {
                    assert(self.input_buffers.view() =~= old(self).input_buffers.view());
                }
            }
        }
    }

    /// A key press in the settings editor. With the exit dialog open, `y`
    /// saves and exits, `n` exits, escape closes the dialog. Otherwise escape
    /// exits, opening the dialog first when there are unsaved changes; up and
    /// down move the selection; control-s saves; backspace deletes in the
    /// selected typed setting; space generates a generated setting or types a
    /// space; another printable character is typed.
    pub fn handle_key(&mut self, definitions: &Vec<SettingDefinition>, key: KeyPress) -> (r: EditorAction)
        requires
            edits_selected(old(self).show_exit_modal, key) ==> old(self).selection_valid(definitions@),
        ensures
            old(self).show_exit_modal ==> {
                &&& (key.code == KeyInput::Char('y') || key.code == KeyInput::Char('Y')) ==> {
                    &&& r == EditorAction::Save
                    &&& final(self).should_exit
                    &&& !final(self).dirty
                    &&& final(self).status@ == "Settings saved."@
                    &&& values_view(final(self).settings.view()) == saved_view(
                        values_view(old(self).settings.view()),
                        old(self).input_buffers.view(),
                    )
                    &&& final(self).input_buffers.view() == old(self).input_buffers.view()
                    &&& final(self).selected_setting == old(self).selected_setting
                    &&& final(self).show_exit_modal == old(self).show_exit_modal
                }
                &&& (key.code == KeyInput::Char('n') || key.code == KeyInput::Char('N')) ==> {
                    &&& r == EditorAction::Nothing
                    &&& final(self).should_exit
                    &&& final(self).settings == old(self).settings
                    &&& final(self).input_buffers.view() == old(self).input_buffers.view()
                    &&& final(self).selected_setting == old(self).selected_setting
                    &&& final(self).status@ == old(self).status@
                    &&& final(self).dirty == old(self).dirty
                    &&& final(self).show_exit_modal == old(self).show_exit_modal
                }
                &&& key.code == KeyInput::Esc ==> {
                    &&& r == EditorAction::Nothing
                    &&& !final(self).show_exit_modal
                    &&& final(self).should_exit == old(self).should_exit
                    &&& final(self).settings.view() == old(self).settings.view()
                    &&& final(self).input_buffers.view() == old(self).input_buffers.view()
                    &&& final(self).selected_setting == old(self).selected_setting
                    &&& final(self).status@ == old(self).status@
                    &&& final(self).dirty == old(self).dirty
                }
            },
            !old(self).show_exit_modal ==> {
                &&& (key.code == KeyInput::Esc && key.plain()) ==> {
                    &&& r == EditorAction::Nothing
                    &&& final(self).settings.view() == old(self).settings.view()
                    &&& final(self).input_buffers.view() == old(self).input_buffers.view()
                    &&& final(self).selected_setting == old(self).selected_setting
                    &&& final(self).dirty == old(self).dirty
                    &&& if old(self).dirty {
                        &&& final(self).show_exit_modal
                        &&& final(self).should_exit == old(self).should_exit
                        &&& final(self).status@ == "Unsaved changes. Save before exiting? (y/n)"@
                    } else {
                        &&& final(self).should_exit
                        &&& final(self).show_exit_modal == old(self).show_exit_modal
                        &&& final(self).status@ == old(self).status@
                    }
                }
                &&& key.code == KeyInput::Up ==> {
                    &&& r == EditorAction::Nothing
                    &&& final(self).selected_setting.selected == Some(match old(self).selected_setting.selected {
                        Some(i) => if i == 0 { 0usize } else { (i - 1) as usize },
                        None => usize::MAX,
                    })
                    &&& same_but_selection(*old(self), *final(self))
                }
                &&& key.code == KeyInput::Down ==> {
                    &&& r == EditorAction::Nothing
                    &&& final(self).selected_setting.selected == Some(match old(self).selected_setting.selected {
                        Some(i) => if i == usize::MAX { usize::MAX } else { (i + 1) as usize },
                        None => 0usize,
                    })
                    &&& same_but_selection(*old(self), *final(self))
                }
                &&& (key.code == KeyInput::Char('s') && key.ctrl_only()) ==> {
                    &&& r == EditorAction::Save
                    &&& !final(self).dirty
                    &&& final(self).status@ == "Settings saved."@
                    &&& final(self).should_exit == old(self).should_exit
                    &&& values_view(final(self).settings.view()) == saved_view(
                        values_view(old(self).settings.view()),
                        old(self).input_buffers.view(),
                    )
                    &&& final(self).input_buffers.view() == old(self).input_buffers.view()
                    &&& final(self).selected_setting == old(self).selected_setting
                    &&& final(self).show_exit_modal == old(self).show_exit_modal
                }
            },
            old(self).dirty && r != EditorAction::Save ==> final(self).dirty,
            !old(self).show_exit_modal && key.code == KeyInput::Backspace ==> r == EditorAction::Nothing && match old(
                self,
            ).selected_setting.selected {
                Some(i) => edit_outcome(*old(self), *final(self), definitions@[i as int], None),
                None => same_editor(*old(self), *final(self)),
            },
            !old(self).show_exit_modal && key.code == KeyInput::Char(' ') ==> r == EditorAction::Nothing && match old(
                self,
            ).selected_setting.selected {
                Some(i) => match definitions@[i as int].input {
                    SettingInput::Generated(_) => generated_outcome(*old(self), *final(self), definitions@[i as int]),
                    SettingInput::HumanInput => edit_outcome(*old(self), *final(self), definitions@[i as int], Some(' ')),
                },
                None => same_editor(*old(self), *final(self)),
            },
            !old(self).show_exit_modal && !(key.code is Up || key.code is Down || key.code is Char || key.code is Backspace
                || (key.code == KeyInput::Esc && key.plain())) ==> r == EditorAction::Nothing && same_editor(
                *old(self),
                *final(self),
            ),
            old(self).show_exit_modal && !(key.code is Esc || key.code == KeyInput::Char('y') || key.code == KeyInput::Char(
                'Y',
            ) || key.code == KeyInput::Char('n') || key.code == KeyInput::Char('N')) ==> r == EditorAction::Nothing
                && same_editor(*old(self), *final(self)),
            match key.code {
                KeyInput::Char(c) => !old(self).show_exit_modal && c != ' ' && !(c == 's' && key.ctrl_only()) ==> {
                    &&& r == EditorAction::Nothing
                    &&& if !is_control_spec(c) && old(self).selected_setting.selected is Some {
                        edit_outcome(*old(self), *final(self), definitions@[old(self).selected_setting.selected->0 as int], Some(c))
                    } else {
                        same_editor(*old(self), *final(self))
                    }
                },
                _ => true,
            },
    {
        if self.show_exit_modal {
            match key.code {
                KeyInput::Char('y') | KeyInput::Char('Y') => {
                    save_settings(&mut self.settings, &self.input_buffers);
                    self.status = String::from_str("Settings saved.");
                    self.dirty = false;
                    self.should_exit = true;
                    return EditorAction::Save;
                },
                KeyInput::Char('n') | KeyInput::Char('N') => {
                    self.should_exit = true;
                },
                KeyInput::Esc => {
                    self.show_exit_modal = false;
                },
                _ => {},
            }
            return EditorAction::Nothing;
        }
        match key.code {
            KeyInput::Esc if !key.ctrl && !key.shift && !key.alt => {
                if self.dirty {
                    self.show_exit_modal = true;
                    self.status = String::from_str("Unsaved changes. Save before exiting? (y/n)");
                } else {
                    self.should_exit = true;
                }
                EditorAction::Nothing
            },
            KeyInput::Up => {
                self.selected_setting.select_previous();
                EditorAction::Nothing
            },
            KeyInput::Down => {
                self.selected_setting.select_next();
                EditorAction::Nothing
            },
            KeyInput::Char('s') if key.ctrl && !key.shift && !key.alt => {
                save_settings(&mut self.settings, &self.input_buffers);
                self.status = String::from_str("Settings saved.");
                self.dirty = false;
                EditorAction::Save
            },
            KeyInput::Backspace => {
                if let Some(idx) = self.selected_setting.selected() {
                    let def = &definitions[idx];
                    self.edit_buffer(def, None);
                }
                EditorAction::Nothing
            },
            KeyInput::Char(' ') => {
                if let Some(idx) = self.selected_setting.selected() {
                    let def = &definitions[idx];
                    if let SettingInput::Generated(generator) = def.input {
                        self.settings.insert(def.name, generator.generate());
                        self.dirty = true;
                        self.status = String::from_str("Generating ").concat(def.label).concat(".");
                    } else {
                        self.edit_buffer(def, Some(' '));
                    }
                }
                EditorAction::Nothing
            },
            KeyInput::Char(c) => {
                if !is_control(c) {
                    if let Some(idx) = self.selected_setting.selected() {
                        let def = &definitions[idx];
                        self.edit_buffer(def, Some(c));
                    }
                }
                EditorAction::Nothing
            },
            _ => EditorAction::Nothing,
        }
    }
}

/// What the settings list shows as the value of a setting.
#[derive(Debug, Clone, PartialEq, Eq)]
pub enum ItemValue {
    /// The text typed so far.
    Typed(String),
    /// No value is set.
    Missing,
    /// A text of so many bytes.
    Chars(usize),
    /// So many bytes.
    Bytes(usize),
    Flag(bool),
    Number(i32),
}

/// What the settings list shows for the setting of `def`: a typed setting
/// shows its buffer (empty when it has none); a generated one shows the size
/// of its value, `Missing` when it is not set or empty, or the flag or number
/// it holds.
pub fn setting_item_value(def: &SettingDefinition, settings: &SettingMap<SettingValue>, buffers: &SettingMap<String>) -> (r:
    ItemValue)
    ensures
        def.input == SettingInput::HumanInput ==> (r matches ItemValue::Typed(t) && t@ == (if buffers.view().dom().contains(
            def.name,
        ) {
            buffers.view()[def.name]@
        } else {
            Seq::<char>::empty()
        })),
        def.input != SettingInput::HumanInput ==> r == if settings.view().dom().contains(def.name) {
            match settings.view()[def.name] {
                SettingValue::String(Some(v)) => if v@.len() == 0 {
                    ItemValue::Missing
                } else {
                    ItemValue::Chars(encode_utf8(v@).len() as usize)
                },
                SettingValue::Bytes(Some(b)) => if b@.len() == 0 {
                    ItemValue::Missing
                } else {
                    ItemValue::Bytes(b@.len() as usize)
                },
                SettingValue::Bool(b) => ItemValue::Flag(b),
                SettingValue::Int(n) => ItemValue::Number(n),
                _ => ItemValue::Missing,
            }
        } else {
            ItemValue::Missing
        },
{
    if def.input == SettingInput::HumanInput {
        return match buffers.get(def.name) {
            Some(b) => ItemValue::Typed(b.clone()),
            None => ItemValue::Typed(String::new()),
        };
    }
    match settings.get(def.name) {
        Some(SettingValue::String(Some(v))) => if v.as_str().is_empty() {
            ItemValue::Missing
        } else {
            ItemValue::Chars(v.as_str().len())
        },
        Some(SettingValue::Bytes(Some(b))) => if b.len() == 0 {
            ItemValue::Missing
        } else {
            ItemValue::Bytes(b.len())
        },
        Some(SettingValue::Bool(b)) => ItemValue::Flag(*b),
        Some(SettingValue::Int(n)) => ItemValue::Number(*n),
        _ => ItemValue::Missing,
    }
}

/// The question the exit dialog asks.
pub fn exit_prompt(dirty: bool) -> (r: &'static str)
    ensures
        r@ == if dirty {
            "Save changes before exiting? (y/n)"@
        } else {
            "Exit setup? (y/n)"@
        },
{
    if dirty {
        "Save changes before exiting? (y/n)"
    } else {
        "Exit setup? (y/n)"
    }
}

} // verus!
