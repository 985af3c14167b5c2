//! The worker's commands.

use vstd::prelude::*;
use vstd::string::StringExecFns;
use crate::sidecar::client::{first_step, SidecarClient, Step};
use crate::sidecar::error::{SidecarError, SidecarErrorView};
use crate::sidecar::ipc::IpcResponse;
use crate::json::{
    json_object_text,
    json_string_text,
    json_text,
    object_value,
    text_value,
    write_json,
};
use crate::sidecar::manager::{default_path, failure_message, failure_text, SidecarManagerView};

verus! {

/// The client of the worker, as the application holds it.
pub struct SidecarState<W> {
    client: SidecarClient<W>,
}

impl<W> View for SidecarState<W> {
    type V = SidecarManagerView<W>;

    closed spec fn view(&self) -> SidecarManagerView<W> {
        self.client@
    }
}

impl<W> SidecarState<W> {
    /// The state with a client of the default worker, not yet started.
    pub fn new(beside_host: Option<String>, beside_host_exists: bool) -> (made: Result<
        Self,
        SidecarError,
    >)
        ensures
            made matches Ok(state) && state@ == (SidecarManagerView {
                executable_path: default_path(
                    match beside_host {
                        Some(path) => Some(path@),
                        None => None,
                    },
                    beside_host_exists,
                ),
                running: false,
                pending: Map::<Seq<char>, W>::empty(),
            }),
    {
        match SidecarClient::with_default(beside_host, beside_host_exists) {
            Ok(client) => Ok(SidecarState { client }),
            Err(error) => Err(error),
        }
    }

    /// The client.
    pub fn client(&self) -> (client: &SidecarClient<W>)
        ensures
            client@ == self@,
    {
        &self.client
    }

    /// The client, to hand events to.
    pub fn client_mut(&mut self) -> (client: &mut SidecarClient<W>)
        ensures
            client@ == old(self)@,
            final(self)@ == final(client)@,
    {
        &mut self.client
    }

    /// Whether the worker is there to be asked.
    pub fn is_available(&self) -> (b: bool)
        ensures
            b == self@.running,
    {
        self.client.is_running()
    }
}

/// Prepares the worker. There is nothing to prepare.
pub fn init_sidecar() -> (answer: Result<(), String>)
    ensures
        answer is Ok,
{
    Ok(())
}

/// Answers a command for the worker: `outcome` is what the call returned.
/// A response is passed on as it is, a failure in words.
pub fn send_sidecar_command(outcome: Result<IpcResponse, SidecarError>) -> (answer: Result<
    IpcResponse,
    String,
>)
    ensures
        match outcome {
            Ok(response) => answer == Ok::<IpcResponse, String>(response),
            Err(error) => answer matches Err(message) && message@ == error@.message(),
        },
{
    match outcome {
        Ok(response) => Ok(response),
        Err(error) => Err(error.to_string()),
    }
}

/// Begins the test of the worker: a call of the operation `test` whose
/// parameters are the object with the one member `message`.
pub fn test_sidecar<W>(client: &SidecarClient<W>, message: &str) -> (step: Step)
    ensures
        step@ matches crate::sidecar::client::StepView::Send { call, delay_ms, command }
            && call.func == "test"@ && call.max_retries == 3 && call.attempt == 1 && delay_ms == 0
            && command.func == "test"@ && command.id == crate::sidecar::client::attempt_id(
            "test"@,
            1,
        ) && json_text(command.params) == json_object_text(
            seq![("message"@, json_string_text(message@))],
        ),
{
    let mut members: Vec<(String, serde_json::Value)> = Vec::new();
    members.push((String::from_str("message"), text_value(message)));
    assert(crate::json::member_texts(members@) =~= seq![
        ("message"@, json_string_text(message@)),
    ]);
    client.send_command("test", object_value(members))
}

/// The text that stands for a payload: what was written of it, or a
/// plain word where writing failed.
pub fn written_or_success(written: Result<String, serde_json::Error>) -> (text: String)
    ensures
        text@ == match written {
            Ok(written) => written@,
            Err(_) => "Success"@,
        },
{
    match written {
        Ok(written) => written,
        Err(_) => String::from_str("Success"),
    }
}

/// Answers the test of the worker: `outcome` is what the call returned.
/// A success is answered with its payload written as JSON, or with a plain
/// word where it has none or where the payload could not be written; a
/// rejection with the worker's message; a failure in words.
pub fn test_sidecar_answer(outcome: Result<IpcResponse, SidecarError>) -> (answer: Result<
    String,
    String,
>)
    ensures
        match outcome {
            Err(error) => answer matches Err(message) && message@ == error@.message(),
            Ok(response) => if !response.success {
                answer matches Err(message) && message@ == failure_message(response@)
            } else {
                match response.data {
                    None => answer matches Ok(text) && text@ == "Command executed successfully"@,
                    Some(payload) => answer matches Ok(text) && text@ == json_text(payload),
                }
            },
        },
{
    match outcome {
        Err(error) => Err(error.to_string()),
        Ok(response) => {
            if response.is_success() {
                match response.get_data() {
                    Some(data) => Ok(written_or_success(write_json(data))),
                    None => Ok(String::from_str("Command executed successfully")),
                }
            } else {
                Err(failure_text(&response))
            }
        },
    }
}

} // verus!
