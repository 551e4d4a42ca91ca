//! The desktop client's field parsers and the subscriptions page's commit
//! rules: which request a typed link, name or path turns into, and why a
//! click sends nothing.

use vstd::prelude::*;
use crate::text::{
    opt_view,
    parse_unsigned,
    parse_unsigned_spec,
    starts_with,
    starts_with_spec,
    str_eq,
    trim,
    trim_spec,
};

use crate::command::ClientCommand;
use crate::gui_lang::{tr, Locale};

verus! {

/// The mixed-inbound port a field holds: a decimal `u16` after trimming, and
/// never 0, which would point the system proxy nowhere.
pub open spec fn parse_port_spec(text: Seq<char>) -> Option<nat> {
    match parse_unsigned_spec(trim_spec(text), 65535) {
        Some(n) => if n > 0 {
            Some(n)
        } else {
            None
        },
        None => None,
    }
}

/// Parses the mixed-inbound port.
pub fn parse_port(text: &str) -> (port: Option<u16>)
    ensures
        match port {
            Some(p) => parse_port_spec(text@) == Some(p as nat),
            None => parse_port_spec(text@) is None,
        },
{
    let t = trim(text);
    match parse_unsigned(t.as_str(), 65535) {
        Some(n) => if n > 0 {
            Some(n as u16)
        } else {
            None
        },
        None => None,
    }
}

/// Parses the auto-update interval in minutes; 0 ("off") is a valid value.
pub fn parse_count(text: &str) -> (count: Option<u64>)
    ensures
        match count {
            Some(n) => parse_unsigned_spec(trim_spec(text@), u64::MAX as nat) == Some(n as nat),
            None => parse_unsigned_spec(trim_spec(text@), u64::MAX as nat) is None,
        },
{
    let t = trim(text);
    parse_unsigned(t.as_str(), u64::MAX)
}

/// Why the add click did not add anything, as a code so the panel renders it
/// in whichever language is showing.
#[derive(Clone, Copy, Debug, PartialEq, Eq, Structural)]
pub enum ImportReject {
    /// Nothing to import: the link is blank.
    EmptyUrl,
    /// The path field is blank; its own reason names its own field.
    EmptyPath,
}

pub open spec fn import_reject_label_spec(reject: ImportReject, locale: Locale) -> Seq<char> {
    match reject {
        ImportReject::EmptyUrl => if locale == Locale::En {
            "The subscription link cannot be empty."@
        } else {
            "订阅链接不能为空。"@
        },
        ImportReject::EmptyPath => if locale == Locale::En {
            "The local JSON file path cannot be empty."@
        } else {
            "本地 JSON 文件路径不能为空。"@
        },
    }
}

impl ImportReject {
    pub fn label(self, locale: Locale) -> (s: &'static str)
        ensures
            s@ == import_reject_label_spec(self, locale),
    {
        match self {
            ImportReject::EmptyUrl => tr(
                locale,
                "订阅链接不能为空。",
                "The subscription link cannot be empty.",
            ),
            ImportReject::EmptyPath => tr(
                locale,
                "本地 JSON 文件路径不能为空。",
                "The local JSON file path cannot be empty.",
            ),
        }
    }
}

/// What the add button, or Enter in the link field, makes of the input.
#[derive(Clone, Debug, PartialEq, Eq)]
pub enum ImportAttempt {
    /// Ask the engine for this link; `keep_in_field` says whether the text
    /// stays in the field because only the engine can rule on it.
    Submit { url: String, keep_in_field: bool },
    /// Refuse the click here and say why, keeping the panel open.
    Reject(ImportReject),
}

/// Whether a trimmed link is an HTTP(S) URL the field can let go of.
pub open spec fn is_http_spec(url: Seq<char>) -> bool {
    starts_with_spec(url, "http://"@) || starts_with_spec(url, "https://"@)
}

/// The panel's own validation of a link.
pub fn classify_import(text: &str) -> (a: ImportAttempt)
    ensures
        trim_spec(text@).len() == 0 ==> a == ImportAttempt::Reject(ImportReject::EmptyUrl),
        trim_spec(text@).len() > 0 ==> (a matches ImportAttempt::Submit { url, keep_in_field }
            && url@ == trim_spec(text@) && keep_in_field == !is_http_spec(trim_spec(text@))),
{
    let url = trim(text);
    if url.as_str().unicode_len() == 0 {
        return ImportAttempt::Reject(ImportReject::EmptyUrl);
    }
    let http = starts_with(url.as_str(), "http://") || starts_with(url.as_str(), "https://");
    ImportAttempt::Submit { keep_in_field: !http, url }
}

/// What one of the subscriptions page's commits sends, or why it sends
/// nothing.
#[derive(Clone, Debug, PartialEq, Eq)]
pub enum ImportRequest {
    Send {
        command: ClientCommand,
        /// Text only the engine can rule on survives the click.
        keep_in_field: bool,
    },
    Reject(ImportReject),
}

/// A profile name: the trimmed text, or none for a blank field so the engine
/// keeps naming unnamed profiles itself.
pub open spec fn import_name_spec(text: Seq<char>) -> Option<Seq<char>> {
    if trim_spec(text).len() == 0 {
        None
    } else {
        Some(trim_spec(text))
    }
}

pub fn import_name(text: &str) -> (name: Option<String>)
    ensures
        opt_view(name) == import_name_spec(text@),
{
    let name = trim(text);
    if name.as_str().unicode_len() == 0 {
        None
    } else {
        Some(name)
    }
}

/// The add click and Enter in either import field: the link decides the
/// shape, the name field only labels the profile.
pub fn subscription_request(name: &str, url: &str) -> (r: ImportRequest)
    ensures
        trim_spec(url@).len() == 0 ==> r == ImportRequest::Reject(ImportReject::EmptyUrl),
        trim_spec(url@).len() > 0 ==> (r matches ImportRequest::Send {
            command: ClientCommand::ImportSubscription { name: n, url: u },
            keep_in_field,
        } && u@ == trim_spec(url@) && opt_view(n) == import_name_spec(name@) && keep_in_field
            == !is_http_spec(trim_spec(url@))),
{
    match classify_import(url) {
        ImportAttempt::Submit { url, keep_in_field } => ImportRequest::Send {
            command: ClientCommand::ImportSubscription { name: import_name(name), url },
            keep_in_field,
        },
        ImportAttempt::Reject(reason) => ImportRequest::Reject(reason),
    }
}

/// The "import from clipboard" click: the clipboard's text, as it is, becomes
/// an unnamed subscription unless it is blank.
pub fn clipboard_import(text: &str) -> (c: Option<ClientCommand>)
    ensures
        trim_spec(text@).len() == 0 ==> c is None,
        trim_spec(text@).len() > 0 ==> (c matches Some(ClientCommand::ImportSubscription { name: None, url })
            && url@ == text@),
{
    let trimmed = trim(text);
    if trimmed.as_str().unicode_len() == 0 {
        None
    } else {
        Some(ClientCommand::ImportSubscription { name: None, url: text.to_string() })
    }
}

/// The import-file click: the only command that never touches a URL. The
/// path always stays in the field, because only the engine knows whether the
/// file exists and parses.
pub fn file_import_request(path: &str) -> (r: ImportRequest)
    ensures
        trim_spec(path@).len() == 0 ==> r == ImportRequest::Reject(ImportReject::EmptyPath),
        trim_spec(path@).len() > 0 ==> (r matches ImportRequest::Send {
            command: ClientCommand::ImportProfileFile(p),
            keep_in_field,
        } && p@ == trim_spec(path@) && keep_in_field),
{
    let p = trim(path);
    if p.as_str().unicode_len() == 0 {
        return ImportRequest::Reject(ImportReject::EmptyPath);
    }
    ImportRequest::Send { command: ClientCommand::ImportProfileFile(p), keep_in_field: true }
}

/// The save-link click on one profile row: the import panel's link rules, but
/// the command rewrites that profile instead of adding one, and an empty link
/// is refused so a profile's link can never be cleared.
pub fn link_edit_request(profile: &str, url: &str) -> (r: ImportRequest)
    ensures
        trim_spec(url@).len() == 0 ==> r == ImportRequest::Reject(ImportReject::EmptyUrl),
        trim_spec(url@).len() > 0 ==> (r matches ImportRequest::Send {
            command: ClientCommand::SetProfileUrl { name: n, url: u },
            keep_in_field,
        } && n@ == profile@ && u@ == trim_spec(url@) && keep_in_field == !is_http_spec(
            trim_spec(url@),
        )),
{
    match classify_import(url) {
        ImportAttempt::Submit { url, keep_in_field } => ImportRequest::Send {
            command: ClientCommand::SetProfileUrl { name: profile.to_owned(), url },
            keep_in_field,
        },
        ImportAttempt::Reject(reason) => ImportRequest::Reject(reason),
    }
}

/// Which row's link editor is open after a click: the clicked row, unless it
/// is the one already open, which closes.
pub open spec fn url_editor_target_spec(open: Option<Seq<char>>, clicked: Seq<char>) -> Option<
    Seq<char>,
> {
    if open == Some(clicked) {
        None
    } else {
        Some(clicked)
    }
}

pub fn url_editor_target(open: Option<&str>, clicked: &str) -> (r: Option<String>)
    ensures
        opt_view(r) == url_editor_target_spec(
            match open {
                Some(o) => Some(o@),
                None => None,
            },
            clicked@,
        ),
{
    let same = match open {
        Some(o) => str_eq(o, clicked),
        None => false,
    };
    if same {
        None
    } else {
        Some(clicked.to_owned())
    }
}

/// At most one link editor is open, and clicking the open one closes it.
pub proof fn one_link_editor_at_a_time(open: Option<Seq<char>>, clicked: Seq<char>)
    ensures
        url_editor_target_spec(Some(clicked), clicked) is None,
        url_editor_target_spec(url_editor_target_spec(None, clicked), clicked) is None,
        open != Some(clicked) ==> url_editor_target_spec(open, clicked) == Some(clicked),
{
}

} // verus!
