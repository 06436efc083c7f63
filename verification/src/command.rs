//! Commands as they travel over the message queue: JSON objects tagged with
//! the command's kind, parsed by `serde_json` and read here.

use vstd::prelude::*;
use crate::sftp_scanner::SftpDownload;

verus! {

/// `serde_json::Value`, declared so that it can be converted. Nothing of its
/// inside is known here.
#[verifier::external_type_specification]
#[verifier::external_body]
pub struct ExJsonDocument(serde_json::Value);

/// A JSON document as `serde_json` parses it. A number is held as the text
/// that `serde_json` prints for it, an object as its members in the order in
/// which `serde_json` walks them.
#[derive(Debug, PartialEq, Eq)]
pub enum JsonValue {
    Null,
    Bool(bool),
    Number(String),
    Text(String),
    Array(Vec<JsonValue>),
    Object(Vec<(String, JsonValue)>),
}

/// The document that `serde_json::from_slice` reads from `bytes`; `None`
/// where the bytes are no JSON text.
pub uninterp spec fn json_document(bytes: Seq<u8>) -> Option<JsonValue>;

/// The JSON string literal that `serde_json::to_string` writes for `text`,
/// quotes and escapes included.
pub uninterp spec fn json_quoted(text: Seq<char>) -> Seq<char>;

/// Turns a `serde_json::Value` into a [`JsonValue`], variant for variant.
#[verifier::external_body]
fn convert_json(value: serde_json::Value) -> JsonValue {
    match value {
        serde_json::Value::Null => JsonValue::Null,
        serde_json::Value::Bool(flag) => JsonValue::Bool(flag),
        serde_json::Value::Number(number) => JsonValue::Number(number.to_string()),
        serde_json::Value::String(text) => JsonValue::Text(text),
        serde_json::Value::Array(items) => JsonValue::Array(
            items.into_iter().map(convert_json).collect(),
        ),
        serde_json::Value::Object(members) => JsonValue::Object(
            members.into_iter().map(|(name, value)| (name, convert_json(value))).collect(),
        ),
    }
}

/// Calls `serde_json::from_slice` for a `serde_json::Value`. Trusted: parsing
/// is a function of the bytes alone, so the outcome is [`json_document`] of
/// them.
#[verifier::external_body]
fn parse_json(bytes: &[u8]) -> (document: Option<JsonValue>)
    ensures
        document == json_document(bytes@),
{
    serde_json::from_slice::<serde_json::Value>(bytes).ok().map(convert_json)
}

/// Calls `serde_json::to_string` on a string slice. Trusted: the call
/// succeeds and what is written is [`json_quoted`] of the text. By its
/// documentation `to_string` fails only where the value's `Serialize` fails
/// or the value holds a map with keys that are no strings; a string slice
/// does neither, and it is written into memory, where no write fails.
#[verifier::external_body]
fn quote_json(text: &str) -> (quoted: Option<String>)
    ensures
        match quoted {
            Some(literal) => literal@ == json_quoted(text@),
            None => false,
        },
{
    serde_json::to_string(text).ok()
}

/// A command for a worker.
#[derive(Debug, PartialEq, Eq)]
pub enum Command {
    SftpDownload { path: String },
    HttpDownload { url: String },
}

/// The mathematical value of a [`Command`].
pub ghost enum CommandView {
    SftpDownload { path: Seq<char> },
    HttpDownload { url: Seq<char> },
}

impl View for Command {
    type V = CommandView;

    open spec fn view(&self) -> CommandView {
        match self {
            Command::SftpDownload { path } => CommandView::SftpDownload { path: path@ },
            Command::HttpDownload { url } => CommandView::HttpDownload { url: url@ },
        }
    }
}

/// Why a payload is no command.
#[derive(Clone, Copy, Debug, PartialEq, Eq, Structural)]
pub enum DecodeError {
    /// The payload is no JSON text.
    NotJson,
    /// The document is no object with exactly one member.
    NotTagged,
    /// The member's name is no kind of command.
    UnknownCommand,
    /// The command's body is no object that holds the command's field as
    /// text.
    MissingField,
}

/// The value of the first of `members`, from index `from` on, that is named
/// `name`.
pub open spec fn member(members: Seq<(String, JsonValue)>, name: Seq<char>, from: int) -> Option<
    JsonValue,
>
    decreases members.len() - from,
{
    if from >= members.len() {
        None
    } else if members[from].0@ == name {
        Some(members[from].1)
    } else {
        member(members, name, from + 1)
    }
}

/// The text that the object `body` holds under `name`.
pub open spec fn text_field(body: JsonValue, name: Seq<char>) -> Option<Seq<char>> {
    match body {
        JsonValue::Object(members) => match member(members@, name, 0) {
            Some(JsonValue::Text(text)) => Some(text@),
            _ => None,
        },
        _ => None,
    }
}

/// The command that `document` stands for: an object with exactly one
/// member, named `SftpDownload` with a body that holds `path` as text, or
/// named `HttpDownload` with a body that holds `url` as text. What else the
/// body holds is passed over.
pub open spec fn command_of(document: JsonValue) -> Result<CommandView, DecodeError> {
    match document {
        JsonValue::Object(members) => if members@.len() != 1 {
            Err(DecodeError::NotTagged)
        } else if members@[0].0@ == "SftpDownload"@ {
            match text_field(members@[0].1, "path"@) {
                Some(path) => Ok(CommandView::SftpDownload { path }),
                None => Err(DecodeError::MissingField),
            }
        } else if members@[0].0@ == "HttpDownload"@ {
            match text_field(members@[0].1, "url"@) {
                Some(url) => Ok(CommandView::HttpDownload { url }),
                None => Err(DecodeError::MissingField),
            }
        } else {
            Err(DecodeError::UnknownCommand)
        },
        _ => Err(DecodeError::NotTagged),
    }
}

/// The command that the payload `bytes` stands for.
pub open spec fn decoded_command(bytes: Seq<u8>) -> Result<CommandView, DecodeError> {
    match json_document(bytes) {
        Some(document) => command_of(document),
        None => Err(DecodeError::NotJson),
    }
}

/// The value of a decoding result.
pub open spec fn decoding_view(result: Result<Command, DecodeError>) -> Result<
    CommandView,
    DecodeError,
> {
    match result {
        Ok(command) => Ok(command@),
        Err(e) => Err(e),
    }
}

/// Reads the text that the object `body` holds under `name`.
fn read_text_field(body: &JsonValue, name: &String) -> (text: Option<String>)
    ensures
        match text {
            Some(t) => text_field(*body, name@) == Some(t@),
            None => text_field(*body, name@).is_none(),
        },
{
    match body {
        JsonValue::Object(members) => {
            let mut i: usize = 0;
            while i < members.len()
                invariant
                    i <= members.len(),
                    *body == JsonValue::Object(*members),
                    member(members@, name@, 0) == member(members@, name@, i as int),
                decreases members.len() - i,
            {
                if members[i].0 == *name {
                    return match &members[i].1 {
                        JsonValue::Text(text) => Some(text.clone()),
                        _ => None,
                    };
                }
                i = i + 1;
            }
            None
        },
        _ => None,
    }
}

/// Reads a command off a parsed JSON document.
pub fn command_from_json(document: &JsonValue) -> (result: Result<Command, DecodeError>)
    ensures
        decoding_view(result) == command_of(*document),
{
    match document {
        JsonValue::Object(members) => {
            if members.len() != 1 {
                return Err(DecodeError::NotTagged);
            }
            let tag = &members[0].0;
            let body = &members[0].1;
            if *tag == "SftpDownload".to_owned() {
                match read_text_field(body, &"path".to_owned()) {
                    Some(path) => Ok(Command::SftpDownload { path }),
                    None => Err(DecodeError::MissingField),
                }
            } else if *tag == "HttpDownload".to_owned() {
                match read_text_field(body, &"url".to_owned()) {
                    Some(url) => Ok(Command::HttpDownload { url }),
                    None => Err(DecodeError::MissingField),
                }
            } else {
                Err(DecodeError::UnknownCommand)
            }
        },
        _ => Err(DecodeError::NotTagged),
    }
}

/// Decodes a queue payload into a command.
pub fn decode_command(payload: &[u8]) -> (result: Result<Command, DecodeError>)
    ensures
        decoding_view(result) == decoded_command(payload@),
{
    match parse_json(payload) {
        Some(document) => command_from_json(&document),
        None => Err(DecodeError::NotJson),
    }
}

/// The command that the queue bridge publishes for a download that a scan
/// emitted: the download of its path.
pub fn command_for_download(download: &SftpDownload) -> (command: Command)
    ensures
        command@ == (CommandView::SftpDownload { path: download.path@ }),
{
    Command::SftpDownload { path: download.path.clone() }
}

/// The JSON text of a command whose one field holds the string literal
/// `quoted`.
pub open spec fn framed(command: CommandView, quoted: Seq<char>) -> Seq<char> {
    match command {
        CommandView::SftpDownload { .. } => "{\"SftpDownload\":{\"path\":"@ + quoted + "}}"@,
        CommandView::HttpDownload { .. } => "{\"HttpDownload\":{\"url\":"@ + quoted + "}}"@,
    }
}

/// The text of a command's one field.
pub open spec fn field_text(command: CommandView) -> Seq<char> {
    match command {
        CommandView::SftpDownload { path } => path,
        CommandView::HttpDownload { url } => url,
    }
}

/// The JSON text under which a command travels.
pub open spec fn encoded(command: CommandView) -> Seq<char> {
    framed(command, json_quoted(field_text(command)))
}

/// Frames a command's JSON text around `quoted`, the string literal of its
/// one field.
pub fn frame_command(command: &Command, quoted: &str) -> (text: String)
    ensures
        text@ == framed(command@, quoted@),
{
    match command {
        Command::SftpDownload { .. } => "{\"SftpDownload\":{\"path\":".to_owned().concat(
            quoted,
        ).concat("}}"),
        Command::HttpDownload { .. } => "{\"HttpDownload\":{\"url\":".to_owned().concat(
            quoted,
        ).concat("}}"),
    }
}

/// Encodes a command as JSON text for the queue: the object tagged with the
/// command's kind, around the string literal of the command's one field.
/// Every command has its text.
pub fn encode_command(command: &Command) -> (text: Option<String>)
    ensures
        match text {
            Some(t) => t@ == encoded(command@),
            None => false,
        },
{
    let field = match command {
        Command::SftpDownload { path } => path,
        Command::HttpDownload { url } => url,
    };
    match quote_json(field.as_str()) {
        Some(quoted) => Some(frame_command(command, quoted.as_str())),
        None => None,
    }
}

/// The acknowledgement of one delivery.
#[derive(Clone, Copy, Debug, PartialEq, Eq, Structural)]
pub struct Acknowledgement {
    pub delivery_tag: u64,
    /// Whether earlier deliveries are acknowledged along with this one.
    pub multiple: bool,
}

/// What the consumer makes of one delivery: the command or the reason why
/// there is none, to be logged, and the acknowledgement to issue afterwards.
#[derive(Debug, PartialEq, Eq)]
pub struct Handling {
    pub decoded: Result<Command, DecodeError>,
    pub acknowledgement: Acknowledgement,
}

/// The acknowledgement of the delivery `delivery_tag`: of that delivery
/// alone.
pub open spec fn acknowledgement_of(delivery_tag: u64) -> Acknowledgement {
    Acknowledgement { delivery_tag, multiple: false }
}

/// Settles a delivery whose payload decoded to `decoded`: the delivery is
/// acknowledged whether or not it decoded.
pub fn settle_delivery(decoded: Result<Command, DecodeError>, delivery_tag: u64) -> (handling:
    Handling)
    ensures
        handling.decoded == decoded,
        handling.acknowledgement == acknowledgement_of(delivery_tag),
{
    Handling { decoded, acknowledgement: Acknowledgement { delivery_tag, multiple: false } }
}

/// Handles one delivery of the queue: decodes its payload and acknowledges
/// the delivery, whatever the payload holds. A payload that is no command
/// is reported and acknowledged like any other, so that the deliveries behind
/// it are handled in their turn.
pub fn handle_delivery(payload: &[u8], delivery_tag: u64) -> (handling: Handling)
    ensures
        decoding_view(handling.decoded) == decoded_command(payload@),
        handling.acknowledgement == acknowledgement_of(delivery_tag),
{
    settle_delivery(decode_command(payload), delivery_tag)
}

} // verus!
