//! The two messages of the protocol.
//!
//! On the wire a command is one line of JSON, an object with the members
//! `id`, `func` and `params`; a response is one line of JSON, an object with
//! the members `id`, `success`, and optionally `data` and `error`.

use vstd::prelude::*;
use vstd::string::StringExecFns;
use super::error::{SidecarError, SidecarErrorView};
use crate::json::{
    error_text,
    flag_value,
    json_object_text,
    json_parses,
    json_string_text,
    json_text,
    member_of,
    member_texts,
    null_value,
    object_value,
    parsed_json,
    read_json,
    read_member,
    text_value,
    write_json,
    Member,
    Reading,
};

verus! {

/// Whether a text has the form in which a UUID is written with hyphens:
/// thirty-six characters, of which the ninth, the fourteenth, the nineteenth
/// and the twenty-fourth are hyphens.
pub open spec fn is_hyphenated(text: Seq<char>) -> bool {
    &&& text.len() == 36
    &&& text[8] == '-'
    &&& text[13] == '-'
    &&& text[18] == '-'
    &&& text[23] == '-'
}

/// Draws a random (version 4) UUID with `uuid::Uuid::new_v4` and writes it
/// in its hyphenated form. Of the text only its form is claimed: the text
/// itself differs from call to call. `new_v4` panics where the operating
/// system gives it no random bytes.
#[verifier::external_body]
fn fresh_uuid() -> (text: String)
    ensures
        is_hyphenated(text@),
{
    uuid::Uuid::new_v4().to_string()
}

/// A request to the worker.
#[derive(Debug)]
pub struct IpcCommand {
    /// The correlation id, unique among the requests that are outstanding.
    pub id: String,
    /// The name of the operation.
    pub func: String,
    /// The operation's parameters.
    pub params: serde_json::Value,
}

/// A command, with each text as the sequence of its characters.
pub struct IpcCommandView {
    pub id: Seq<char>,
    pub func: Seq<char>,
    pub params: serde_json::Value,
}

impl View for IpcCommand {
    type V = IpcCommandView;

    open spec fn view(&self) -> IpcCommandView {
        IpcCommandView { id: self.id@, func: self.func@, params: self.params }
    }
}

/// The worker's answer to one request.
#[derive(Debug)]
pub struct IpcResponse {
    /// The id of the command that this answers.
    pub id: String,
    /// Whether the command succeeded.
    pub success: bool,
    /// The payload of a success, if there is one.
    pub data: Option<serde_json::Value>,
    /// The message of a failure.
    pub error: Option<String>,
}

/// A response, with each text as the sequence of its characters.
pub struct IpcResponseView {
    pub id: Seq<char>,
    pub success: bool,
    pub data: Option<serde_json::Value>,
    pub error: Option<Seq<char>>,
}

impl View for IpcResponse {
    type V = IpcResponseView;

    open spec fn view(&self) -> IpcResponseView {
        IpcResponseView {
            id: self.id@,
            success: self.success,
            data: self.data,
            error: match self.error {
                Some(message) => Some(message@),
                None => None,
            },
        }
    }
}

/// The members that a command is written with, each by its name and by
/// the compact text of its value: `id` and `func` as JSON strings, `params`
/// as it is.
pub open spec fn command_members(command: IpcCommandView) -> Seq<(Seq<char>, Seq<char>)> {
    seq![
        ("id"@, json_string_text(command.id)),
        ("func"@, json_string_text(command.func)),
        ("params"@, json_text(command.params)),
    ]
}

/// The JSON text of a command: the object of its members.
pub open spec fn command_text(command: IpcCommandView) -> Seq<char> {
    json_object_text(command_members(command))
}

/// The members that a response is written with, each by its name and by
/// the compact text of its value: `id` as a JSON string, `success` as `true`
/// or `false`, `data` as it is, `error` as a JSON string; a payload or a
/// message that the response lacks is `null`.
pub open spec fn response_members(response: IpcResponseView) -> Seq<(Seq<char>, Seq<char>)> {
    seq![
        ("id"@, json_string_text(response.id)),
        (
            "success"@,
            if response.success {
                "true"@
            } else {
                "false"@
            },
        ),
        (
            "data"@,
            match response.data {
                Some(payload) => json_text(payload),
                None => "null"@,
            },
        ),
        (
            "error"@,
            match response.error {
                Some(message) => json_string_text(message),
                None => "null"@,
            },
        ),
    ]
}

/// The JSON text of a response: the object of its members.
pub open spec fn response_text(response: IpcResponseView) -> Seq<char> {
    json_object_text(response_members(response))
}

/// The complaint that a member is missing.
pub open spec fn missing_complaint(name: Seq<char>) -> SidecarErrorView {
    SidecarErrorView::JsonError("missing field `"@ + name + "`"@)
}

/// The complaint that a member is not of the type it must have.
pub open spec fn type_complaint(name: Seq<char>) -> SidecarErrorView {
    SidecarErrorView::JsonError("invalid type for field `"@ + name + "`"@)
}

/// What is read of a member that must be a string: its text, or the
/// complaint that the member is missing or is no string.
pub open spec fn required_text(member: Option<Member>, name: Seq<char>) -> Result<
    Seq<char>,
    SidecarErrorView,
> {
    match member {
        None => Err(missing_complaint(name)),
        Some(member) => match member.reading {
            Reading::Text(text) => Ok(text@),
            _ => Err(type_complaint(name)),
        },
    }
}

/// What is read of a member that must be a boolean.
pub open spec fn required_flag(member: Option<Member>, name: Seq<char>) -> Result<
    bool,
    SidecarErrorView,
> {
    match member {
        None => Err(missing_complaint(name)),
        Some(member) => match member.reading {
            Reading::Flag(flag) => Ok(flag),
            _ => Err(type_complaint(name)),
        },
    }
}

/// What is read of a member that may be missing and, if it is there, is
/// null or a string: a member that is missing or null reads as none.
pub open spec fn optional_text(member: Option<Member>, name: Seq<char>) -> Result<
    Option<Seq<char>>,
    SidecarErrorView,
> {
    match member {
        None => Ok(None),
        Some(member) => match member.reading {
            Reading::Null => Ok(None),
            Reading::Text(text) => Ok(Some(text@)),
            _ => Err(type_complaint(name)),
        },
    }
}

/// What is read of a member that may be missing and holds any value: a
/// member that is missing or null reads as none.
pub open spec fn optional_value(member: Option<Member>) -> Option<serde_json::Value> {
    match member {
        None => None,
        Some(member) => match member.reading {
            Reading::Null => None,
            _ => Some(member.value),
        },
    }
}

/// The command that the members of a JSON object stand for: `id` and
/// `func` are strings and `params` is there; the first member that is not as
/// it must be is complained about.
pub open spec fn command_of(
    id: Option<Member>,
    func: Option<Member>,
    params: Option<Member>,
) -> Result<IpcCommandView, SidecarErrorView> {
    match required_text(id, "id"@) {
        Err(error) => Err(error),
        Ok(id) => match required_text(func, "func"@) {
            Err(error) => Err(error),
            Ok(func) => match params {
                None => Err(missing_complaint("params"@)),
                Some(params) => Ok(IpcCommandView { id, func, params: params.value }),
            },
        },
    }
}

/// The response that the members of a JSON object stand for: `id` is a
/// string, `success` a boolean, `data` any value or missing, `error` a string
/// or missing; the first member that is not as it must be is complained about.
pub open spec fn response_of(
    id: Option<Member>,
    success: Option<Member>,
    data: Option<Member>,
    error: Option<Member>,
) -> Result<IpcResponseView, SidecarErrorView> {
    match required_text(id, "id"@) {
        Err(problem) => Err(problem),
        Ok(id) => match required_flag(success, "success"@) {
            Err(problem) => Err(problem),
            Ok(success) => match optional_text(error, "error"@) {
                Err(problem) => Err(problem),
                Ok(error) => Ok(IpcResponseView { id, success, data: optional_value(data), error }),
            },
        },
    }
}

/// The command that a JSON value stands for, by its members `id`, `func`
/// and `params`.
pub open spec fn command_in(object: serde_json::Value) -> Result<IpcCommandView, SidecarErrorView> {
    command_of(member_of(object, "id"@), member_of(object, "func"@), member_of(object, "params"@))
}

/// The response that a JSON value stands for, by its members `id`,
/// `success`, `data` and `error`.
pub open spec fn response_in(object: serde_json::Value) -> Result<
    IpcResponseView,
    SidecarErrorView,
> {
    response_of(
        member_of(object, "id"@),
        member_of(object, "success"@),
        member_of(object, "data"@),
        member_of(object, "error"@),
    )
}

/// The response that a line reads as, if it reads as one: the line is JSON
/// and the value it holds stands for a response.
pub open spec fn line_response(line: Seq<char>) -> Option<IpcResponseView> {
    if json_parses(line) {
        match response_in(parsed_json(line)) {
            Ok(response) => Some(response),
            Err(_) => None,
        }
    } else {
        None
    }
}

/// The view of a command that was read, or of the complaint in its place.
pub open spec fn command_view(read: Result<IpcCommand, SidecarError>) -> Result<
    IpcCommandView,
    SidecarErrorView,
> {
    match read {
        Ok(command) => Ok(command@),
        Err(error) => Err(error@),
    }
}

/// The view of a response that was read, or of the complaint in its place.
pub open spec fn response_view(read: Result<IpcResponse, SidecarError>) -> Result<
    IpcResponseView,
    SidecarErrorView,
> {
    match read {
        Ok(response) => Ok(response@),
        Err(error) => Err(error@),
    }
}

/// The complaint that a member is missing.
fn missing_field(name: &str) -> (error: SidecarError)
    ensures
        error@ == missing_complaint(name@),
{
    let mut message = String::from_str("missing field `");
    message.append(name);
    message.append("`");
    SidecarError::JsonError(message)
}

/// The complaint that a member is not of the type it must have.
fn invalid_type(name: &str) -> (error: SidecarError)
    ensures
        error@ == type_complaint(name@),
{
    let mut message = String::from_str("invalid type for field `");
    message.append(name);
    message.append("`");
    SidecarError::JsonError(message)
}

/// Reads a member that must be a string.
fn text_member(member: Option<Member>, name: &str) -> (text: Result<String, SidecarError>)
    ensures
        match required_text(member, name@) {
            Ok(wanted) => text matches Ok(read) && read@ == wanted,
            Err(problem) => text matches Err(error) && error@ == problem,
        },
{
    match member {
        None => Err(missing_field(name)),
        Some(member) => match member.reading {
            Reading::Text(text) => Ok(text),
            _ => Err(invalid_type(name)),
        },
    }
}

/// Reads a member that must be a boolean.
fn flag_member(member: Option<Member>, name: &str) -> (flag: Result<bool, SidecarError>)
    ensures
        match required_flag(member, name@) {
            Ok(wanted) => flag == Ok::<bool, SidecarError>(wanted),
            Err(problem) => flag matches Err(error) && error@ == problem,
        },
{
    match member {
        None => Err(missing_field(name)),
        Some(member) => match member.reading {
            Reading::Flag(flag) => Ok(flag),
            _ => Err(invalid_type(name)),
        },
    }
}

/// Reads a member that may be missing and, if it is there, is null or a string.
fn optional_text_member(member: Option<Member>, name: &str) -> (text: Result<
    Option<String>,
    SidecarError,
>)
    ensures
        match optional_text(member, name@) {
            Ok(wanted) => text matches Ok(read) && crate::text::text_of(read) == wanted,
            Err(problem) => text matches Err(error) && error@ == problem,
        },
{
    match member {
        None => Ok(None),
        Some(member) => match member.reading {
            Reading::Null => Ok(None),
            Reading::Text(text) => Ok(Some(text)),
            _ => Err(invalid_type(name)),
        },
    }
}

/// The failure to report where `serde_json` could not read or write.
fn json_failure(error: &serde_json::Error) -> (failure: SidecarError)
    ensures
        failure@ is JsonError,
{
    SidecarError::JsonError(error_text(error))
}

impl Clone for IpcCommand {
    fn clone(&self) -> (copy: Self)
        ensures
            copy@ == self@,
    {
        IpcCommand { id: self.id.clone(), func: self.func.clone(), params: self.params.clone() }
    }
}

impl Clone for IpcResponse {
    fn clone(&self) -> (copy: Self)
        ensures
            copy@ == self@,
    {
        IpcResponse {
            id: self.id.clone(),
            success: self.success,
            data: match &self.data {
                Some(value) => Some(value.clone()),
                None => None,
            },
            error: match &self.error {
                Some(message) => Some(message.clone()),
                None => None,
            },
        }
    }
}

impl IpcCommand {
    /// A command with the given id.
    pub fn new(id: &str, func: &str, params: serde_json::Value) -> (command: Self)
        ensures
            command@ == (IpcCommandView { id: id@, func: func@, params }),
    {
        IpcCommand { id: id.to_owned(), func: func.to_owned(), params }
    }

    /// A command with a random UUID, written with hyphens, as its id.
    pub fn with_uuid(func: &str, params: serde_json::Value) -> (command: Self)
        ensures
            is_hyphenated(command@.id),
            command@.func == func@,
            command@.params == params,
    {
        IpcCommand { id: fresh_uuid(), func: func.to_owned(), params }
    }

    /// The command that the members of a JSON object stand for.
    pub fn from_members(id: Option<Member>, func: Option<Member>, params: Option<Member>) -> (read:
        Result<Self, SidecarError>)
        ensures
            command_view(read) == command_of(id, func, params),
    {
        let id = match text_member(id, "id") {
            Ok(id) => id,
            Err(error) => {
                return Err(error);
            },
        };
        let func = match text_member(func, "func") {
            Ok(func) => func,
            Err(error) => {
                return Err(error);
            },
        };
        match params {
            None => Err(missing_field("params")),
            Some(params) => Ok(IpcCommand { id, func, params: params.value }),
        }
    }

    /// The members of the object that the command is written as: `id` and
    /// `func`, each a JSON string, and `params`, the parameters as they are.
    pub fn members(&self) -> (members: Vec<(String, serde_json::Value)>)
        ensures
            members@.len() == 3,
            members@[0].0@ == "id"@,
            members@[1].0@ == "func"@,
            members@[2].0@ == "params"@,
            members@[2].1 == self@.params,
            member_texts(members@) == command_members(self@),
    {
        let mut members: Vec<(String, serde_json::Value)> = Vec::new();
        members.push((String::from_str("id"), text_value(self.id.as_str())));
        members.push((String::from_str("func"), text_value(self.func.as_str())));
        members.push((String::from_str("params"), self.params.clone()));
        assert(member_texts(members@) =~= command_members(self@));
        members
    }

    /// Writes the command as JSON: an object with the members `id`, `func`
    /// and `params`. What is written is the text of that object, which holds
    /// no line feed.
    pub fn encode(&self) -> (written: Result<String, SidecarError>)
        ensures
            written matches Ok(text) && text@ == command_text(self@) && !text@.contains('\n'),
    {
        match write_json(&object_value(self.members())) {
            Ok(text) => Ok(text),
            Err(error) => Err(json_failure(&error)),
        }
    }

    /// Reads a command from JSON text: an object with the members `id`,
    /// `func` and `params`. Members of other names are passed over. A text
    /// that is no JSON is a failure of JSON, with the reader's message.
    pub fn decode(text: &str) -> (read: Result<Self, SidecarError>)
        ensures
            json_parses(text@) ==> command_view(read) == command_in(parsed_json(text@)),
            !json_parses(text@) ==> (read matches Err(error) && error@ is JsonError),
    {
        match read_json(text) {
            Err(error) => Err(json_failure(&error)),
            Ok(object) => {
                let id = read_member(&object, "id");
                let func = read_member(&object, "func");
                let params = read_member(&object, "params");
                IpcCommand::from_members(id, func, params)
            },
        }
    }
}

impl IpcResponse {
    /// The answer to a command that succeeded.
    pub fn success(id: &str, data: Option<serde_json::Value>) -> (response: Self)
        ensures
            response@ == (IpcResponseView { id: id@, success: true, data, error: None }),
    {
        IpcResponse { id: id.to_owned(), success: true, data, error: None }
    }

    /// The answer to a command that failed.
    pub fn error(id: &str, error: &str) -> (response: Self)
        ensures
            response@ == (IpcResponseView {
                id: id@,
                success: false,
                data: None,
                error: Some(error@),
            }),
    {
        IpcResponse { id: id.to_owned(), success: false, data: None, error: Some(error.to_owned()) }
    }

    /// The response that the members of a JSON object stand for.
    pub fn from_members(
        id: Option<Member>,
        success: Option<Member>,
        data: Option<Member>,
        error: Option<Member>,
    ) -> (read: Result<Self, SidecarError>)
        ensures
            response_view(read) == response_of(id, success, data, error),
    {
        let id = match text_member(id, "id") {
            Ok(id) => id,
            Err(problem) => {
                return Err(problem);
            },
        };
        let success = match flag_member(success, "success") {
            Ok(success) => success,
            Err(problem) => {
                return Err(problem);
            },
        };
        let error = match optional_text_member(error, "error") {
            Ok(error) => error,
            Err(problem) => {
                return Err(problem);
            },
        };
        let data = match data {
            None => None,
            Some(member) => match member.reading {
                Reading::Null => None,
                _ => Some(member.value),
            },
        };
        Ok(IpcResponse { id, success, data, error })
    }

    /// The members of the object that the response is written as: `id`, a
    /// JSON string; `success`, a JSON boolean; `data`, the payload as it is;
    /// and `error`, a JSON string. A payload or a message that the response
    /// lacks is written as null.
    pub fn members(&self) -> (members: Vec<(String, serde_json::Value)>)
        ensures
            members@.len() == 4,
            members@[0].0@ == "id"@,
            members@[1].0@ == "success"@,
            members@[2].0@ == "data"@,
            members@[3].0@ == "error"@,
            self@.data matches Some(payload) ==> members@[2].1 == payload,
            member_texts(members@) == response_members(self@),
    {
        let mut members: Vec<(String, serde_json::Value)> = Vec::new();
        members.push((String::from_str("id"), text_value(self.id.as_str())));
        members.push((String::from_str("success"), flag_value(self.success)));
        let data = match &self.data {
            Some(value) => value.clone(),
            None => null_value(),
        };
        members.push((String::from_str("data"), data));
        let error = match &self.error {
            Some(message) => text_value(message.as_str()),
            None => null_value(),
        };
        members.push((String::from_str("error"), error));
        assert(member_texts(members@) =~= response_members(self@));
        members
    }

    /// Writes the response as JSON: an object with the members `id`,
    /// `success`, `data` and `error`, the last two null where the response has
    /// none. What is written is the text of that object, which holds no line
    /// feed.
    pub fn encode(&self) -> (written: Result<String, SidecarError>)
        ensures
            written matches Ok(text) && text@ == response_text(self@) && !text@.contains('\n'),
    {
        match write_json(&object_value(self.members())) {
            Ok(text) => Ok(text),
            Err(error) => Err(json_failure(&error)),
        }
    }

    /// Reads a response from JSON text: an object with the members `id` and
    /// `success` and, optionally, `data` and `error`. Members of other names
    /// are passed over. A text that is no JSON is a failure of JSON, with
    /// the reader's message.
    pub fn decode(text: &str) -> (read: Result<Self, SidecarError>)
        ensures
            json_parses(text@) ==> response_view(read) == response_in(parsed_json(text@)),
            !json_parses(text@) ==> (read matches Err(error) && error@ is JsonError),
            line_response(text@) matches Some(response) ==> (read matches Ok(found) && found@
                == response),
            line_response(text@) is None ==> read is Err,
    {
        match read_json(text) {
            Err(error) => Err(json_failure(&error)),
            Ok(object) => {
                let id = read_member(&object, "id");
                let success = read_member(&object, "success");
                let data = read_member(&object, "data");
                let error = read_member(&object, "error");
                IpcResponse::from_members(id, success, data, error)
            },
        }
    }

    /// Whether the command succeeded.
    pub fn is_success(&self) -> (b: bool)
        ensures
            b == self@.success,
    {
        self.success
    }

    /// The payload, if there is one.
    pub fn get_data(&self) -> (data: Option<&serde_json::Value>)
        ensures
            data is Some <==> self@.data is Some,
            data matches Some(value) ==> *value == self@.data->0,
    {
        self.data.as_ref()
    }

    /// The failure's message, if there is one.
    pub fn get_error(&self) -> (error: Option<&String>)
        ensures
            error is Some <==> self@.error is Some,
            error matches Some(message) ==> message@ == self@.error->0,
    {
        self.error.as_ref()
    }
}

/// Whatever is complained about the members of a command, the complaint
/// is a failure of reading JSON.
pub proof fn lemma_command_complaints(
    id: Option<Member>,
    func: Option<Member>,
    params: Option<Member>,
)
    ensures
        command_of(id, func, params) matches Err(problem) ==> problem is JsonError,
{
}

/// Whatever is complained about the members of a response, the complaint
/// is a failure of reading JSON.
pub proof fn lemma_response_complaints(
    id: Option<Member>,
    success: Option<Member>,
    data: Option<Member>,
    error: Option<Member>,
)
    ensures
        response_of(id, success, data, error) matches Err(problem) ==> problem is JsonError,
{
}

} // verus!
