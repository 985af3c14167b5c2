//! The supervisor of the worker process: what it keeps track of and what it decides.
//!
//! The supervisor launches the worker, writes each command to the worker's
//! input as one line, and hands each line of the worker's output to the request
//! that it answers. Launching, writing, reading and waiting are the caller's
//! part; this module holds the bookkeeping and every decision, each as a
//! function from the supervisor's state and an event to the next state and
//! what to do.

use vstd::prelude::*;
use vstd::string::StringExecFns;
use super::error::{SidecarError, SidecarErrorView};
use super::ipc::{command_text, line_response, IpcCommand, IpcResponse, IpcResponseView};
use super::pending::{delivery_of, table_after_route, PendingTable};

verus! {

/// The file name of the worker's executable.
pub const SIDECAR_EXECUTABLE: &'static str = "bun-sidecar-x86_64-pc-windows-mscv.exe";

/// How an attempt to launch the worker ended.
#[derive(Debug)]
pub enum Launch {
    /// No file exists at the executable's path.
    Missing,
    /// The operating system could not launch the process; its message.
    Failed(String),
    /// The process was launched, but its input stream was not captured.
    NoInput,
    /// The process was launched, but its output stream was not captured.
    NoOutput,
    /// The process runs and both its streams are held.
    Started,
}

/// What the supervisor keeps track of.
///
/// `W` is whatever hands a response over to the thread that waits for it.
pub struct SidecarManager<W> {
    executable_path: String,
    running: bool,
    pending: PendingTable<W>,
}

/// A supervisor's state: the path of the executable, whether a process is
/// held, and the waiter of each pending request.
pub struct SidecarManagerView<W> {
    pub executable_path: Seq<char>,
    pub running: bool,
    pub pending: Map<Seq<char>, W>,
}

impl<W> View for SidecarManager<W> {
    type V = SidecarManagerView<W>;

    closed spec fn view(&self) -> SidecarManagerView<W> {
        SidecarManagerView {
            executable_path: self.executable_path@,
            running: self.running,
            pending: self.pending@,
        }
    }
}

/// The path that a supervisor is made with when none is given: the
/// executable beside the host program if that file exists, else the bare
/// file name, which the operating system resolves in the working directory.
pub open spec fn default_path(beside_host: Option<Seq<char>>, beside_host_exists: bool) -> Seq<
    char,
> {
    match beside_host {
        Some(path) if beside_host_exists => path,
        _ => SIDECAR_EXECUTABLE@,
    }
}

/// What `start` answers to the outcome of a launch.
pub open spec fn start_result(executable_path: Seq<char>, launch: Launch) -> Result<
    (),
    SidecarErrorView,
> {
    match launch {
        Launch::Missing => Err(SidecarErrorView::NotFound(executable_path)),
        Launch::Failed(detail) => Err(SidecarErrorView::SpawnError(detail@)),
        Launch::NoInput => Err(SidecarErrorView::InvalidResponse("Failed to capture stdin"@)),
        Launch::NoOutput => Err(SidecarErrorView::InvalidResponse("Failed to capture stdout"@)),
        Launch::Started => Ok(()),
    }
}

/// Whether a text is exactly one line: it ends in a line feed and holds no other.
pub open spec fn is_one_line(text: Seq<char>) -> bool {
    &&& text.len() >= 1
    &&& text.last() == '\n'
    &&& !text.drop_last().contains('\n')
}

/// The line to write for a command, or why nothing is written: the encoder's
/// failure first, then a worker that was not started, then an encoding that
/// would not be one line.
pub open spec fn line_to_send(running: bool, encoded: Result<String, SidecarError>) -> Result<
    Seq<char>,
    SidecarErrorView,
> {
    match encoded {
        Err(error) => Err(error@),
        Ok(text) => if !running {
            Err(SidecarErrorView::InvalidResponse("Sidecar not started"@))
        } else if text@.contains('\n') {
            Err(SidecarErrorView::JsonError("Encoded command spans several lines"@))
        } else {
            Ok(text@.push('\n'))
        },
    }
}

/// The message of a response that reports a failure.
pub open spec fn failure_message(response: IpcResponseView) -> Seq<char> {
    match response.error {
        Some(message) => message,
        None => "Unknown error"@,
    }
}

/// What the wait for the response to a command ends in: a timeout if
/// nothing was delivered, else the response that was delivered, whether it
/// reports success or failure.
pub open spec fn wait_outcome(id: Seq<char>, delivered: Option<IpcResponseView>) -> Result<
    IpcResponseView,
    SidecarErrorView,
> {
    match delivered {
        None => Err(SidecarErrorView::Timeout("No response for command "@ + id)),
        Some(response) => Ok(response),
    }
}

/// The view of what a call returns.
pub open spec fn outcome_view(outcome: Result<IpcResponse, SidecarError>) -> Result<
    IpcResponseView,
    SidecarErrorView,
> {
    match outcome {
        Ok(response) => Ok(response@),
        Err(error) => Err(error@),
    }
}

/// Whether a text holds a line feed.
fn holds_line_feed(text: &str) -> (b: bool)
    ensures
        b == text@.contains('\n'),
{
    for c in it: text.chars()
        invariant
            it.seq() == text@,
            forall|k: int| 0 <= k < it.index() ==> text@[k] != '\n',
    {
        if c == '\n' {
            assert(text@[it.index() as int] == '\n');
            return true;
        }
    }
    false
}

/// Frames an encoded message as the line to write: the text followed by a
/// line feed. A text that holds a line feed cannot be framed.
pub fn frame_line(text: String) -> (frame: Option<String>)
    ensures
        text@.contains('\n') ==> frame is None,
        !text@.contains('\n') ==> (frame matches Some(line) && line@ == text@.push('\n')
            && is_one_line(line@)),
{
    if holds_line_feed(text.as_str()) {
        None
    } else {
        proof {
            reveal_strlit("\n");
        }
        let ghost before = text@;
        let mut line = text;
        line.append("\n");
        proof {
            assert(line@ =~= before.push('\n'));
            assert(line@.drop_last() =~= before);
        }
        Some(line)
    }
}

/// The message of a response that reports a failure.
pub fn failure_text(response: &IpcResponse) -> (message: String)
    ensures
        message@ == failure_message(response@),
{
    match &response.error {
        Some(message) => message.clone(),
        None => String::from_str("Unknown error"),
    }
}

impl<W> SidecarManager<W> {
    /// A supervisor for the executable at this path, not yet started.
    /// `exists` says whether a file is there.
    pub fn new(executable_path: &str, exists: bool) -> (made: Result<Self, SidecarError>)
        ensures
            exists ==> (made matches Ok(manager) && manager@ == (SidecarManagerView {
                executable_path: executable_path@,
                running: false,
                pending: Map::<Seq<char>, W>::empty(),
            })),
            !exists ==> (made matches Err(error) && error@ == SidecarErrorView::NotFound(
                executable_path@,
            )),
    {
        if !exists {
            return Err(SidecarError::NotFound(executable_path.to_owned()));
        }
        Ok(
            SidecarManager {
                executable_path: executable_path.to_owned(),
                running: false,
                pending: PendingTable::new(),
            },
        )
    }

    /// A supervisor for the default executable, not yet started. It is made
    /// whether or not the executable exists: only `start` fails without it.
    ///
    /// `beside_host` is the path of the executable's name in the directory of
    /// the host program, if that directory is known; `beside_host_exists` says
    /// whether a file is there.
    pub fn with_default(beside_host: Option<String>, beside_host_exists: bool) -> (made: Result<
        Self,
        SidecarError,
    >)
        ensures
            made matches Ok(manager) && manager@ == (SidecarManagerView {
                executable_path: default_path(
                    match beside_host {
                        Some(path) => Some(path@),
                        None => None,
                    },
                    beside_host_exists,
                ),
                running: false,
                pending: Map::<Seq<char>, W>::empty(),
            }),
    {
        let executable_path = match beside_host {
            Some(path) if beside_host_exists => path,
            _ => String::from_str(SIDECAR_EXECUTABLE),
        };
        Ok(SidecarManager { executable_path, running: false, pending: PendingTable::new() })
    }

    /// The path of the executable to launch.
    pub fn executable_path(&self) -> (path: &str)
        ensures
            path@ == self@.executable_path,
    {
        self.executable_path.as_str()
    }

    /// Whether the process that is held must be stopped before another is
    /// launched: a supervisor holds one process at most.
    pub fn must_stop_first(&self) -> (b: bool)
        ensures
            b == self@.running,
    {
        self.running
    }

    /// Takes note of how a launch of the executable ended. After a launch
    /// that succeeded a process is held; after any other none is.
    ///
    /// The supervisor holds no process when the executable is launched: a
    /// process that was held is stopped first, see `must_stop_first`.
    pub fn start(&mut self, launch: Launch) -> (started: Result<(), SidecarError>)
        requires
            !old(self)@.running,
        ensures
            outcome_of_start(started) == start_result(old(self)@.executable_path, launch),
            final(self)@.executable_path == old(self)@.executable_path,
            final(self)@.pending == old(self)@.pending,
            final(self)@.running == (launch is Started),
    {
        match launch {
            Launch::Missing => Err(SidecarError::NotFound(self.executable_path.clone())),
            Launch::Failed(detail) => Err(SidecarError::SpawnError(detail)),
            Launch::NoInput => Err(
                SidecarError::InvalidResponse(String::from_str("Failed to capture stdin")),
            ),
            Launch::NoOutput => Err(
                SidecarError::InvalidResponse(String::from_str("Failed to capture stdout")),
            ),
            Launch::Started => {
                self.running = true;
                Ok(())
            },
        }
    }

    /// Lets go of the process. `kill` is how ending the held process went; it
    /// is not looked at when no process is held, and stopping is then no error.
    /// Afterwards no process is held, however the kill went.
    pub fn stop(&mut self, kill: Result<(), String>) -> (stopped: Result<(), SidecarError>)
        ensures
            !final(self)@.running,
            final(self)@.executable_path == old(self)@.executable_path,
            final(self)@.pending == old(self)@.pending,
            !old(self)@.running ==> stopped is Ok,
            old(self)@.running ==> match kill {
                Ok(_) => stopped is Ok,
                Err(detail) => stopped matches Err(error) && error@ == SidecarErrorView::IoError(
                    detail@,
                ),
            },
    {
        if !self.running {
            return Ok(());
        }
        self.running = false;
        match kill {
            Ok(_) => Ok(()),
            Err(detail) => Err(SidecarError::IoError(detail)),
        }
    }

    /// Whether a process is held. This is the supervisor's own bookkeeping, not
    /// a probe of the operating system.
    pub fn is_running(&self) -> (b: bool)
        ensures
            b == self@.running,
    {
        self.running
    }

    /// Whether a request with this id awaits its response.
    pub fn is_pending(&self, id: &str) -> (b: bool)
        ensures
            b == self@.pending.contains_key(id@),
    {
        self.pending.contains(id)
    }

    /// The line to write to the worker for an encoded command, or why nothing
    /// is written.
    pub fn send_to_sidecar(&self, encoded: Result<String, SidecarError>) -> (line: Result<
        String,
        SidecarError,
    >)
        ensures
            line_view(line) == line_to_send(self@.running, encoded),
            line matches Ok(text) ==> is_one_line(text@),
    {
        match encoded {
            Err(error) => Err(error),
            Ok(text) => {
                if !self.running {
                    Err(SidecarError::InvalidResponse(String::from_str("Sidecar not started")))
                } else {
                    match frame_line(text) {
                        Some(line) => Ok(line),
                        None => Err(
                            SidecarError::JsonError(
                                String::from_str("Encoded command spans several lines"),
                            ),
                        ),
                    }
                }
            },
        }
    }

    /// Begins the sending of a command whose JSON text is at hand: registers
    /// the waiter under the command's id, before anything is written, and
    /// answers with the line to write. `encoded` is the text, or the failure
    /// to write it.
    ///
    /// Where nothing is to be written the failure is returned and the request
    /// is not pending.
    pub fn send_encoded(
        &mut self,
        id: &str,
        encoded: Result<String, SidecarError>,
        waiter: W,
    ) -> (line: Result<String, SidecarError>)
        ensures
            line_view(line) == line_to_send(old(self)@.running, encoded),
            line matches Ok(text) ==> is_one_line(text@),
            final(self)@.executable_path == old(self)@.executable_path,
            final(self)@.running == old(self)@.running,
            line is Ok ==> final(self)@.pending == old(self)@.pending.insert(id@, waiter),
            line is Err ==> final(self)@.pending == old(self)@.pending.remove(id@),
    {
        let _ = self.pending.register(id, waiter);
        let line = self.send_to_sidecar(encoded);
        if line.is_err() {
            let _ = self.pending.remove(id);
            assert(old(self)@.pending.insert(id@, waiter).remove(id@) =~= old(self)@.pending.remove(
                id@,
            ));
        }
        line
    }

    /// Begins the sending of a command: registers the waiter under the
    /// command's id, before anything is written, encodes the command and
    /// answers with the line to write. The caller writes the line and waits;
    /// `write_failed` and `receive` take it from there.
    ///
    /// A supervisor that holds a process answers with the line: the
    /// command's JSON text and a line feed. One that holds none answers that
    /// the worker was not started, and the request is not pending.
    pub fn send_command(&mut self, command: &IpcCommand, waiter: W) -> (line: Result<
        String,
        SidecarError,
    >)
        ensures
            old(self)@.running ==> (line matches Ok(text) && text@ == command_text(command@).push(
                '\n',
            ) && is_one_line(text@)),
            !old(self)@.running ==> (line matches Err(error) && error@
                == SidecarErrorView::InvalidResponse("Sidecar not started"@)),
            final(self)@.executable_path == old(self)@.executable_path,
            final(self)@.running == old(self)@.running,
            old(self)@.running ==> final(self)@.pending == old(self)@.pending.insert(
                command@.id,
                waiter,
            ),
            !old(self)@.running ==> final(self)@.pending == old(self)@.pending.remove(command@.id),
    {
        let encoded = command.encode();
        self.send_encoded(command.id.as_str(), encoded, waiter)
    }

    /// Gives up a request whose line could not be written: the request is no
    /// longer pending, and the failure to report is returned.
    pub fn write_failed(&mut self, id: &str, detail: String) -> (error: SidecarError)
        ensures
            error@ == SidecarErrorView::IoError(detail@),
            final(self)@.executable_path == old(self)@.executable_path,
            final(self)@.running == old(self)@.running,
            final(self)@.pending == old(self)@.pending.remove(id@),
    {
        match self.pending.remove(id) {
            Some(_) => {},
            None => {
                assert(old(self)@.pending.remove(id@) =~= old(self)@.pending);
            },
        }
        SidecarError::IoError(detail)
    }

    /// Takes what one line of the worker's output was read as: `None`
    /// stands for a line that is no response. A response to a pending request
    /// is returned with that request's waiter, for the caller to hand over,
    /// and the request is no longer pending. Anything else is dropped.
    pub fn on_response(&mut self, decoded: Option<IpcResponse>) -> (delivery: Option<
        (W, IpcResponse),
    >)
        ensures
            final(self)@.executable_path == old(self)@.executable_path,
            final(self)@.running == old(self)@.running,
            match decoded {
                Some(response) => delivery == delivery_of(old(self)@.pending, response)
                    && final(self)@.pending == table_after_route(old(self)@.pending, response),
                None => delivery is None && final(self)@.pending == old(self)@.pending,
            },
    {
        match decoded {
            Some(response) => self.pending.route(response),
            None => None,
        }
    }

    /// Takes one line of the worker's output. A line that reads as a
    /// response to a pending request is returned, as the response, with that
    /// request's waiter, for the caller to hand over, and the request is no
    /// longer pending. Any other line is dropped and changes nothing.
    pub fn on_response_line(&mut self, line: &str) -> (delivery: Option<(W, IpcResponse)>)
        ensures
            final(self)@.executable_path == old(self)@.executable_path,
            final(self)@.running == old(self)@.running,
            match line_response(line@) {
                Some(response) => if old(self)@.pending.contains_key(response.id) {
                    &&& delivery matches Some((waiter, delivered))
                    &&& waiter == old(self)@.pending[response.id]
                    &&& delivered@ == response
                    &&& final(self)@.pending == old(self)@.pending.remove(response.id)
                } else {
                    delivery is None && final(self)@.pending == old(self)@.pending
                },
                None => delivery is None && final(self)@.pending == old(self)@.pending,
            },
    {
        match IpcResponse::decode(line) {
            Ok(response) => {
                let ghost unanswered = !self@.pending.contains_key(response.id@);
                let delivery = self.on_response(Some(response));
                proof {
                    if unanswered {
                        assert(old(self)@.pending.remove(response.id@) =~= old(self)@.pending);
                    }
                }
                delivery
            },
            Err(_) => None,
        }
    }

    /// Ends the wait for the response to the command with this id.
    /// `delivered` is what the waiter was handed, `None` if it was let go of
    /// with nothing. A response is returned as it is, whether it reports
    /// success or failure. The request is no longer pending.
    pub fn receive(&mut self, id: &str, delivered: Option<IpcResponse>) -> (outcome: Result<
        IpcResponse,
        SidecarError,
    >)
        ensures
            outcome_view(outcome) == wait_outcome(
                id@,
                match delivered {
                    Some(response) => Some(response@),
                    None => None,
                },
            ),
            delivered matches Some(response) ==> outcome == Ok::<IpcResponse, SidecarError>(
                response,
            ),
            final(self)@.executable_path == old(self)@.executable_path,
            final(self)@.running == old(self)@.running,
            final(self)@.pending == old(self)@.pending.remove(id@),
    {
        match self.pending.remove(id) {
            Some(_) => {},
            None => {
                assert(old(self)@.pending.remove(id@) =~= old(self)@.pending);
            },
        }
        match delivered {
            None => {
                let mut message = String::from_str("No response for command ");
                message.append(id);
                Err(SidecarError::Timeout(message))
            },
            Some(response) => Ok(response),
        }
    }
}

/// The view of what `start` returns.
pub open spec fn outcome_of_start(started: Result<(), SidecarError>) -> Result<
    (),
    SidecarErrorView,
> {
    match started {
        Ok(_) => Ok(()),
        Err(error) => Err(error@),
    }
}

/// The view of a line to write, or of the failure in its place.
pub open spec fn line_view(line: Result<String, SidecarError>) -> Result<
    Seq<char>,
    SidecarErrorView,
> {
    match line {
        Ok(text) => Ok(text@),
        Err(error) => Err(error@),
    }
}

/// A request is pending under an id and the worker echoes a success with the
/// same id: routing hands that response, unaltered, to the request's waiter
/// and to no other, and the wait ends in that response.
pub proof fn lemma_echoed_success_is_returned<W>(
    pending: Map<Seq<char>, W>,
    waiter: W,
    response: IpcResponse,
)
    requires
        response.success,
    ensures
        delivery_of(pending.insert(response.id@, waiter), response) == Some((waiter, response)),
        wait_outcome(response.id@, Some(response@)) == Ok::<IpcResponseView, SidecarErrorView>(
            response@,
        ),
{
}

/// Whatever the supervisor is asked to write is one line.
pub proof fn lemma_written_text_is_one_line(running: bool, encoded: Result<String, SidecarError>)
    ensures
        line_to_send(running, encoded) matches Ok(text) ==> is_one_line(text),
{
    if let Ok(text) = encoded {
        if running && !text@.contains('\n') {
            assert(text@.push('\n').drop_last() =~= text@);
        }
    }
}

} // verus!
