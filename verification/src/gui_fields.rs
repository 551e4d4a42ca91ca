//! The desktop client's text fields and guarded requests: what a key does to
//! a field, what Enter commits (a filter applies live, a settings field
//! sends a partial update, the link field imports), what Esc restores, and
//! the confirmations that stand before stopping the core or closing the
//! window with the system proxy on.

use vstd::prelude::*;
use crate::text::{
    chars_of,
    contains_str,
    decimal,
    decimal_spec,
    opt_view,
    parse_unsigned_spec,
    push_str,
    str_eq,
    trim,
    trim_spec,
    views,
};

use crate::command::{no_change, ClientCommand, CommandModel, PatchModel, SettingsPatch};

use crate::gui_parse::{classify_import, is_http_spec, parse_count, parse_port, parse_port_spec, ImportAttempt};
use crate::gui_state::{slot_spec, ExitChoice, InputField};
use crate::snapshot::SettingsSnapshot;
use crate::tui_keys::{drop_leading_v, without_leading_v};

verus! {

/// The text of every field, by slot.
pub struct Fields {
    pub texts: Vec<String>,
}

/// The field texts as plain values.
pub open spec fn texts_of(f: Fields) -> Seq<Seq<char>> {
    views(f.texts@)
}

/// One field per slot.
pub open spec fn fields_wf(f: Fields) -> bool {
    f.texts@.len() == 13
}

/// One key press in a field.
pub struct Keystroke {
    /// The key's name: a character, or `backspace`, `space`, `enter`,
    /// `escape`, ...
    pub key: String,
    /// The text the key types, if any.
    pub key_char: Option<String>,
    pub control: bool,
    pub alt: bool,
    pub platform: bool,
    pub function: bool,
}

/// The persisted value a settings field mirrors; the filters and the
/// subscription fields mirror nothing and reset to empty.
pub open spec fn persisted_spec(field: InputField, s: SettingsSnapshot) -> Seq<char> {
    match field {
        InputField::Mirror => s.mirror@,
        InputField::MixedPort => decimal_spec(s.mixed_port as nat),
        InputField::TestUrl => s.test_url@,
        InputField::AutoUpdateMinutes => decimal_spec(s.auto_update_minutes as nat),
        InputField::CoreVersion => s.core_version@,
        _ => Seq::empty(),
    }
}

/// Whether a field mirrors a persisted setting.
pub open spec fn is_setting(field: InputField) -> bool {
    match field {
        InputField::Mirror | InputField::MixedPort | InputField::TestUrl | InputField::AutoUpdateMinutes
        | InputField::CoreVersion => true,
        _ => false,
    }
}

/// Esc: a filter or subscription field clears, a settings field restores
/// the persisted value, so a half-typed edit never pretends to be saved.
pub open spec fn reset_spec(texts: Seq<Seq<char>>, field: InputField, s: SettingsSnapshot) -> Seq<Seq<char>> {
    texts.update(slot_spec(field) as int, persisted_spec(field, s))
}

pub open spec fn update_settings(p: PatchModel) -> Option<CommandModel> {
    Some(CommandModel::UpdateSettings(p))
}

/// Enter (or the save button) on a field: the filters already applied on
/// every keystroke; the link field imports; a settings field sends its
/// trimmed value as a partial update, except that an unreadable port or
/// interval restores the persisted value instead and an empty test URL is
/// not sent.
pub open spec fn commit_spec(texts: Seq<Seq<char>>, field: InputField, s: SettingsSnapshot) -> (Seq<Seq<char>>, Option<CommandModel>) {
    let text = trim_spec(texts[slot_spec(field) as int]);
    match field {
        InputField::SubUrl => if text.len() == 0 {
            (texts, None)
        } else {
            (
                if is_http_spec(text) {
                    texts.update(slot_spec(field) as int, Seq::empty())
                } else {
                    texts
                },
                Some(CommandModel::ImportSubscription { name: None, url: text }),
            )
        },
        InputField::Mirror => (texts, update_settings(PatchModel { mirror: Some(text), ..no_change() })),
        InputField::MixedPort => match parse_port_spec(text) {
            Some(port) => (texts, update_settings(PatchModel { mixed_port: Some(port as u16), ..no_change() })),
            None => (reset_spec(texts, field, s), None),
        },
        InputField::TestUrl => if text.len() == 0 {
            (texts, None)
        } else {
            (texts, update_settings(PatchModel { test_url: Some(text), ..no_change() }))
        },
        InputField::AutoUpdateMinutes => match parse_unsigned_spec(trim_spec(text), u64::MAX as nat) {
            Some(minutes) => (texts, update_settings(PatchModel { auto_update_minutes: Some(minutes as u64), ..no_change() })),
            None => (reset_spec(texts, field, s), None),
        },
        InputField::CoreVersion => (texts, update_settings(PatchModel { core_version: Some(drop_leading_v(text)), ..no_change() })),
        _ => (texts, None),
    }
}

/// `s` without its carriage returns and line feeds.
pub open spec fn without_newlines(s: Seq<char>) -> Seq<char>
    decreases s.len(),
{
    if s.len() == 0 {
        s
    } else {
        let rest = without_newlines(s.drop_last());
        if s.last() == '\r' || s.last() == '\n' {
            rest
        } else {
            rest.push(s.last())
        }
    }
}

/// Whether Enter in this field commits it (the filters, the searches and
/// the link field); elsewhere Enter types nothing and commits nothing.
pub open spec fn commits_on_enter(field: InputField) -> bool {
    match field {
        InputField::ConnFilter | InputField::LogQuery | InputField::ProxySearch | InputField::RuleSearch
        | InputField::SubUrl => true,
        _ => false,
    }
}

/// One key press in a field. Control or the platform key only pastes
/// (Ctrl+V, with line breaks removed) and does nothing else; with no
/// modifier a key types its text, Backspace deletes the last character and
/// Space a space; then Enter commits a committing field and Esc resets the
/// field.
pub open spec fn field_key_spec(
    texts: Seq<Seq<char>>,
    field: InputField,
    k: (Seq<char>, Option<Seq<char>>, bool, bool, bool, bool),
    clipboard: Option<Seq<char>>,
    s: SettingsSnapshot,
) -> (Seq<Seq<char>>, Option<CommandModel>) {
    let (key, key_char, control, alt, platform, function) = k;
    let slot = slot_spec(field) as int;
    if control || platform {
        if key == "v"@ && clipboard is Some {
            (texts.update(slot, texts[slot] + without_newlines(clipboard->0)), None)
        } else {
            (texts, None)
        }
    } else {
        let typed = if !alt && !function {
            match key_char {
                Some(t) if !crate::text::contains_spec(t, "\n"@) && !crate::text::contains_spec(t, "\r"@) =>
                    texts.update(slot, texts[slot] + t),
                _ => if key == "backspace"@ {
                    texts.update(slot, if texts[slot].len() > 0 { texts[slot].drop_last() } else { texts[slot] })
                } else if key == "space"@ {
                    texts.update(slot, texts[slot].push(' '))
                } else {
                    texts
                },
            }
        } else {
            texts
        };
        if key == "enter"@ && commits_on_enter(field) {
            commit_spec(typed, field, s)
        } else if key == "escape"@ {
            (reset_spec(typed, field, s), None)
        } else {
            (typed, None)
        }
    }
}

pub open spec fn keystroke_view(k: Keystroke) -> (Seq<char>, Option<Seq<char>>, bool, bool, bool, bool) {
    (k.key@, opt_view(k.key_char), k.control, k.alt, k.platform, k.function)
}

pub open spec fn command_view(c: Option<ClientCommand>) -> Option<CommandModel> {
    match c {
        Some(c) => Some(c@),
        None => None,
    }
}

fn persisted(field: InputField, settings: &SettingsSnapshot) -> (s: String)
    ensures
        s@ == persisted_spec(field, *settings),
{
    match field {
        InputField::Mirror => settings.mirror.clone(),
        InputField::MixedPort => decimal(settings.mixed_port as u64),
        InputField::TestUrl => settings.test_url.clone(),
        InputField::AutoUpdateMinutes => decimal(settings.auto_update_minutes),
        InputField::CoreVersion => settings.core_version.clone(),
        _ => String::new(),
    }
}

/// `text` without its line breaks.
pub fn strip_newlines(text: &str) -> (r: String)
    ensures
        r@ == without_newlines(text@),
{
    let chars = chars_of(text);
    let mut r = String::new();
    let mut i: usize = 0;
    while i < chars.len()
        invariant
            chars@ == text@,
            i <= chars@.len(),
            r@ == without_newlines(chars@.subrange(0, i as int)),
        decreases chars@.len() - i,
    {
        let c = chars[i];
        assert(chars@.subrange(0, i + 1).drop_last() =~= chars@.subrange(0, i as int));
        if c != '\r' && c != '\n' {
            r.push(c);
        }
        i = i + 1;
    }
    assert(chars@.subrange(0, i as int) =~= chars@);
    r
}

impl Fields {
    /// Every field empty.
    pub fn new() -> (f: Fields)
        ensures
            fields_wf(f),
            forall|k: int| 0 <= k < 13 ==> (#[trigger] texts_of(f)[k]).len() == 0,
    {
        let mut texts: Vec<String> = Vec::new();
        let mut i: usize = 0;
        while i < 13
            invariant
                i <= 13,
                texts@.len() == i,
                forall|k: int| 0 <= k < i ==> (#[trigger] texts@[k])@.len() == 0,
            decreases 13 - i,
        {
            texts.push(String::new());
            i = i + 1;
        }
        Fields { texts }
    }

    /// The text of a field.
    pub fn text(&self, field: InputField) -> (s: &String)
        requires
            fields_wf(*self),
        ensures
            s@ == texts_of(*self)[slot_spec(field) as int],
    {
        &self.texts[field.slot()]
    }

    fn set(&mut self, field: InputField, text: String)
        requires
            fields_wf(*old(self)),
        ensures
            fields_wf(*final(self)),
            texts_of(*final(self)) == texts_of(*old(self)).update(slot_spec(field) as int, text@),
    {
        let ghost before = self.texts@;
        let slot = field.slot();
        self.texts.set(slot, text);
        assert(views(self.texts@) =~= views(before).update(slot as int, text@));
    }

    /// Esc on a field.
    pub fn reset(&mut self, field: InputField, settings: &SettingsSnapshot)
        requires
            fields_wf(*old(self)),
        ensures
            fields_wf(*final(self)),
            texts_of(*final(self)) == reset_spec(texts_of(*old(self)), field, *settings),
    {
        let value = persisted(field, settings);
        self.set(field, value);
    }

    /// Enter (or the save button) on a field: the request to send, if any.
    pub fn commit(&mut self, field: InputField, settings: &SettingsSnapshot) -> (c: Option<ClientCommand>)
        requires
            fields_wf(*old(self)),
        ensures
            fields_wf(*final(self)),
            (texts_of(*final(self)), command_view(c)) == commit_spec(texts_of(*old(self)), field, *settings),
    {
        let text = trim(self.text(field).as_str());
        proof {
            crate::text::lemma_trim_idempotent(texts_of(*self)[slot_spec(field) as int]);
        }
        match field {
            InputField::SubUrl => match classify_import(text.as_str()) {
                ImportAttempt::Reject(_) => None,
                ImportAttempt::Submit { url, keep_in_field } => {
                    if !keep_in_field {
                        self.set(field, String::new());
                    }
                    Some(ClientCommand::ImportSubscription { name: None, url })
                },
            },
            InputField::Mirror => {
                let mut patch = SettingsPatch::unchanged();
                patch.mirror = Some(text);
                Some(ClientCommand::UpdateSettings(patch))
            },
            InputField::MixedPort => match parse_port(text.as_str()) {
                Some(port) => {
                    let mut patch = SettingsPatch::unchanged();
                    patch.mixed_port = Some(port);
                    Some(ClientCommand::UpdateSettings(patch))
                },
                None => {
                    self.reset(field, settings);
                    None
                },
            },
            InputField::TestUrl => {
                if text.unicode_len() == 0 {
                    None
                } else {
                    let mut patch = SettingsPatch::unchanged();
                    patch.test_url = Some(text);
                    Some(ClientCommand::UpdateSettings(patch))
                }
            },
            InputField::AutoUpdateMinutes => match parse_count(text.as_str()) {
                Some(minutes) => {
                    let mut patch = SettingsPatch::unchanged();
                    patch.auto_update_minutes = Some(minutes);
                    Some(ClientCommand::UpdateSettings(patch))
                },
                None => {
                    self.reset(field, settings);
                    None
                },
            },
            InputField::CoreVersion => {
                let mut patch = SettingsPatch::unchanged();
                patch.core_version = Some(without_leading_v(text.as_str()));
                Some(ClientCommand::UpdateSettings(patch))
            },
            _ => None,
        }
    }

    /// Re-syncs the settings fields that are not being edited.
    pub fn sync(&mut self, focused: Option<InputField>, settings: &SettingsSnapshot)
        requires
            fields_wf(*old(self)),
        ensures
            fields_wf(*final(self)),
            texts_of(*final(self)) == sync_spec(texts_of(*old(self)), focused, *settings),
    {
        let ghost start = texts_of(*self);
        let order = [InputField::Mirror, InputField::MixedPort, InputField::TestUrl, InputField::AutoUpdateMinutes, InputField::CoreVersion];
        let mut i: usize = 0;
        while i < 5
            invariant
                fields_wf(*self),
                order@ == seq![InputField::Mirror, InputField::MixedPort, InputField::TestUrl, InputField::AutoUpdateMinutes, InputField::CoreVersion],
                i <= 5,
                forall|k: int| 0 <= k < 13 ==> #[trigger] texts_of(*self)[k] == if 8 <= k < 8 + i && focused != Some(field_at(k)) {
                    persisted_spec(field_at(k), *settings)
                } else {
                    start[k]
                },
            decreases 5 - i,
        {
            let field = order[i];
            assert(slot_spec(field) == 8 + i);
            assert(field_at(8 + i) == field);
            let skip = match focused {
                Some(f) => f == field,
                None => false,
            };
            if !skip {
                let value = persisted(field, settings);
                self.set(field, value);
            }
            i = i + 1;
        }
        assert(texts_of(*self) =~= sync_spec(start, focused, *settings));
    }

    /// The save button: commits every settings field in turn.
    pub fn save(&mut self, settings: &SettingsSnapshot) -> (commands: Vec<ClientCommand>)
        requires
            fields_wf(*old(self)),
        ensures
            fields_wf(*final(self)),
            ({
                let t0 = texts_of(*old(self));
                let (t1, c1) = commit_spec(t0, InputField::Mirror, *settings);
                let (t2, c2) = commit_spec(t1, InputField::MixedPort, *settings);
                let (t3, c3) = commit_spec(t2, InputField::TestUrl, *settings);
                let (t4, c4) = commit_spec(t3, InputField::AutoUpdateMinutes, *settings);
                let (t5, c5) = commit_spec(t4, InputField::CoreVersion, *settings);
                &&& texts_of(*final(self)) == t5
                &&& commands_view(commands@) == options_seq(seq![c1, c2, c3, c4, c5])
            }),
    {
        let mut commands: Vec<ClientCommand> = Vec::new();
        let c = self.commit(InputField::Mirror, settings);
        push_some(&mut commands, c);
        let c = self.commit(InputField::MixedPort, settings);
        push_some(&mut commands, c);
        let c = self.commit(InputField::TestUrl, settings);
        push_some(&mut commands, c);
        let c = self.commit(InputField::AutoUpdateMinutes, settings);
        push_some(&mut commands, c);
        let c = self.commit(InputField::CoreVersion, settings);
        push_some(&mut commands, c);
        proof {
            reveal_with_fuel(options_seq, 6);
            assert(commands_view(Seq::<ClientCommand>::empty()) =~= Seq::<CommandModel>::empty());
        }
        commands
    }

    /// One key press in a field, with the clipboard's text for a paste.
    pub fn key(&mut self, field: InputField, k: &Keystroke, clipboard: Option<&str>, settings: &SettingsSnapshot) -> (c: Option<ClientCommand>)
        requires
            fields_wf(*old(self)),
        ensures
            fields_wf(*final(self)),
            (texts_of(*final(self)), command_view(c)) == field_key_spec(
                texts_of(*old(self)),
                field,
                keystroke_view(*k),
                match clipboard {
                    Some(t) => Some(t@),
                    None => None,
                },
                *settings,
            ),
    {
        if k.control || k.platform {
            if str_eq(k.key.as_str(), "v") {
                if let Some(pasted) = clipboard {
                    let mut text = self.text(field).clone();
                    let clean = strip_newlines(pasted);
                    push_str(&mut text, clean.as_str());
                    self.set(field, text);
                }
            }
            return None;
        }
        if !k.alt && !k.function {
            let typed = match &k.key_char {
                Some(t) => !contains_str(t.as_str(), "\n") && !contains_str(t.as_str(), "\r"),
                None => false,
            };
            if typed {
                let mut text = self.text(field).clone();
                match &k.key_char {
                    Some(t) => push_str(&mut text, t.as_str()),
                    None => {},
                }
                self.set(field, text);
            } else if str_eq(k.key.as_str(), "backspace") {
                let chars = chars_of(self.text(field).as_str());
                let n = chars.len();
                if n > 0 {
                    let shorter = crate::text::string_of(&chars, 0, n - 1);
                    assert(chars@.subrange(0, n - 1) =~= chars@.drop_last());
                    self.set(field, shorter);
                } else {
                    let same = self.text(field).clone();
                    self.set(field, same);
                }
            } else if str_eq(k.key.as_str(), "space") {
                let mut text = self.text(field).clone();
                text.push(' ');
                self.set(field, text);
            }
        }
        let commits = match field {
            InputField::ConnFilter | InputField::LogQuery | InputField::ProxySearch
            | InputField::RuleSearch | InputField::SubUrl => true,
            _ => false,
        };
        if str_eq(k.key.as_str(), "enter") && commits {
            self.commit(field, settings)
        } else if str_eq(k.key.as_str(), "escape") {
            self.reset(field, settings);
            None
        } else {
            None
        }
    }
}

/// The settings fields re-sync from the snapshot whenever they are not
/// being edited, so a field never shows a value the engine no longer holds.
pub open spec fn sync_spec(texts: Seq<Seq<char>>, focused: Option<InputField>, s: SettingsSnapshot) -> Seq<Seq<char>> {
    Seq::new(texts.len(), |k: int| {
        let field = field_at(k);
        if is_setting(field) && focused != Some(field) {
            persisted_spec(field, s)
        } else {
            texts[k]
        }
    })
}

/// The field in slot `k`.
pub open spec fn field_at(k: int) -> InputField {
    if k == 0 {
        InputField::ConnFilter
    } else if k == 1 {
        InputField::LogQuery
    } else if k == 2 {
        InputField::ProxySearch
    } else if k == 3 {
        InputField::RuleSearch
    } else if k == 4 {
        InputField::SubUrl
    } else if k == 5 {
        InputField::SubName
    } else if k == 6 {
        InputField::SubFile
    } else if k == 7 {
        InputField::SubEditUrl
    } else if k == 8 {
        InputField::Mirror
    } else if k == 9 {
        InputField::MixedPort
    } else if k == 10 {
        InputField::TestUrl
    } else if k == 11 {
        InputField::AutoUpdateMinutes
    } else {
        InputField::CoreVersion
    }
}

pub open spec fn commands_view(v: Seq<ClientCommand>) -> Seq<CommandModel> {
    v.map_values(|c: ClientCommand| c@)
}

/// The requests among `o`, in order.
pub open spec fn options_seq(o: Seq<Option<CommandModel>>) -> Seq<CommandModel>
    decreases o.len(),
{
    if o.len() == 0 {
        Seq::empty()
    } else {
        match o.last() {
            Some(c) => options_seq(o.drop_last()).push(c),
            None => options_seq(o.drop_last()),
        }
    }
}

fn push_some(commands: &mut Vec<ClientCommand>, c: Option<ClientCommand>)
    ensures
        commands_view(final(commands)@) == match c {
            Some(x) => commands_view(old(commands)@).push(x@),
            None => commands_view(old(commands)@),
        },
{
    let ghost before = commands@;
    match c {
        Some(x) => {
            commands.push(x);
            assert(commands_view(commands@) =~= commands_view(before).push(x@));
        },
        None => {},
    }
}

/// Sending a request, holding back a stop of the core until it is
/// confirmed: the first stop only arms the confirmation.
pub open spec fn request_spec(armed: bool, c: CommandModel) -> (bool, Option<CommandModel>) {
    if c == CommandModel::StopCore && !armed {
        (true, None)
    } else {
        (armed, Some(c))
    }
}

/// Returns whether the stop confirmation is armed afterwards and the request
/// to send, if any.
pub fn request(confirm_stop_core: bool, command: ClientCommand) -> (r: (bool, Option<ClientCommand>))
    ensures
        (r.0, command_view(r.1)) == request_spec(confirm_stop_core, command@),
{
    let stop = match &command {
        ClientCommand::StopCore => true,
        _ => false,
    };
    if stop && !confirm_stop_core {
        (true, None)
    } else {
        (confirm_stop_core, Some(command))
    }
}

/// The stop confirmation's answer: it disarms, and a yes stops the core.
pub fn answer_stop_core(confirm: bool) -> (r: (bool, Option<ClientCommand>))
    ensures
        !r.0,
        command_view(r.1) == if confirm {
            Some(CommandModel::StopCore)
        } else {
            None
        },
{
    if confirm {
        (false, Some(ClientCommand::StopCore))
    } else {
        (false, None)
    }
}

/// The window's close request: with the system proxy on and no exit choice
/// made yet, it stays open and asks (arming the exit confirmation);
/// otherwise it closes.
pub fn handle_close_request(exit_choice: Option<ExitChoice>, system_proxy_enabled: bool, confirm_exit: bool) -> (r: (bool, bool))
    ensures
        r == if exit_choice is None && system_proxy_enabled {
            (true, false)
        } else {
            (confirm_exit, true)
        },
{
    if exit_choice.is_none() && system_proxy_enabled {
        (true, false)
    } else {
        (confirm_exit, true)
    }
}

/// Stopping the core always asks first: a stop sent with the confirmation
/// disarmed only arms it, and nothing reaches the engine until the answer.
pub proof fn stopping_the_core_asks_first(armed: bool)
    ensures
        request_spec(false, CommandModel::StopCore) == (true, None::<CommandModel>),
        request_spec(armed, CommandModel::StartCore) == (armed, Some(CommandModel::StartCore)),
{
}

/// Esc on a settings field puts back the persisted value, and a port or an
/// interval that does not read as a number never reaches the engine: the
/// field snaps back to the persisted value.
pub proof fn a_bad_setting_snaps_back(texts: Seq<Seq<char>>, s: SettingsSnapshot)
    requires
        texts.len() == 13,
    ensures
        reset_spec(texts, InputField::MixedPort, s)[slot_spec(InputField::MixedPort) as int]
            == decimal_spec(s.mixed_port as nat),
        parse_port_spec(trim_spec(texts[slot_spec(InputField::MixedPort) as int])) is None
            ==> commit_spec(texts, InputField::MixedPort, s) == (reset_spec(texts, InputField::MixedPort, s), None::<CommandModel>),
{
}

} // verus!
