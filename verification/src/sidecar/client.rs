//! The client on top of the supervisor: the retry policy and the typed payload.
//!
//! A call is a sequence of attempts. Each attempt sends one command under an
//! id of its own, which the name of the operation and the attempt's number
//! determine. The caller sends and waits; `Call::next` decides from what came
//! back whether the call is over or which command to send next, and after
//! what pause.

use vstd::prelude::*;
use vstd::string::StringExecFns;
use super::error::{SidecarError, SidecarErrorView};
use super::ipc::{IpcCommand, IpcCommandView, IpcResponse, IpcResponseView};
use super::manager::{
    failure_message,
    failure_text,
    outcome_view,
    Launch,
    SidecarManager,
    SidecarManagerView,
};
use crate::text::{decimal, decimal_text, lemma_decimal_injective};

verus! {

/// The attempts of a call that names no number of its own.
pub const DEFAULT_ATTEMPTS: u32 = 3;

/// A call with an attempt in flight.
#[derive(Debug)]
pub struct Call {
    func: String,
    params: serde_json::Value,
    max_retries: u32,
    attempt: u32,
}

/// A call with an attempt in flight: the operation, its parameters, the
/// attempts allowed, and the number of the attempt in flight, counted from 1.
pub struct CallView {
    pub func: Seq<char>,
    pub params: serde_json::Value,
    pub max_retries: nat,
    pub attempt: nat,
}

impl View for Call {
    type V = CallView;

    closed spec fn view(&self) -> CallView {
        CallView {
            func: self.func@,
            params: self.params,
            max_retries: self.max_retries as nat,
            attempt: self.attempt as nat,
        }
    }
}

/// What the caller of a call does next.
#[derive(Debug)]
pub enum Step {
    /// Pause for `delay_ms` milliseconds, send `command`, wait for what comes
    /// back and hand it to `call`.
    Send { call: Call, delay_ms: u64, command: IpcCommand },
    /// The call is over, with this result.
    Done(Result<IpcResponse, SidecarError>),
}

/// A step, with each text as the sequence of its characters.
pub enum StepView {
    Send { call: CallView, delay_ms: nat, command: IpcCommandView },
    Done(Result<IpcResponseView, SidecarErrorView>),
}

impl View for Step {
    type V = StepView;

    open spec fn view(&self) -> StepView {
        match *self {
            Step::Send { call, delay_ms, command } => StepView::Send {
                call: call@,
                delay_ms: delay_ms as nat,
                command: command@,
            },
            Step::Done(result) => StepView::Done(outcome_view(result)),
        }
    }
}

/// The correlation id of an attempt: the operation's name, a hyphen, and the
/// attempt's number.
pub open spec fn attempt_id(func: Seq<char>, attempt: nat) -> Seq<char> {
    func + "-"@ + decimal(attempt)
}

/// The command of an attempt.
pub open spec fn attempt_command(
    func: Seq<char>,
    params: serde_json::Value,
    attempt: nat,
) -> IpcCommandView {
    IpcCommandView { id: attempt_id(func, attempt), func, params }
}

/// The pause after an attempt that failed, in milliseconds.
pub open spec fn backoff_ms(attempt: nat) -> nat {
    100 * attempt
}

/// The message of a call that was allowed no attempt.
pub open spec fn no_attempt_message(func: Seq<char>, max_retries: nat) -> Seq<char> {
    "Failed to execute command '"@ + func + "' after "@ + decimal(max_retries) + " attempts"@
}

/// How a call begins: with its first attempt, at once; a call that is
/// allowed no attempt is over before anything is sent.
pub open spec fn first_step(
    func: Seq<char>,
    params: serde_json::Value,
    max_retries: nat,
) -> StepView {
    if max_retries == 0 {
        StepView::Done(Err(SidecarErrorView::Timeout(no_attempt_message(func, max_retries))))
    } else {
        StepView::Send {
            call: CallView { func, params, max_retries, attempt: 1 },
            delay_ms: 0,
            command: attempt_command(func, params, 1),
        }
    }
}

/// How a call goes on after an attempt.
///
/// A response that reports success ends the call with that response. What
/// the worker rejected ends the call at once, with the worker's message: it
/// is never sent again. Any other failure is followed by the next attempt,
/// after a pause that grows with the attempt's number, until the attempts are
/// used up; the last failure is then the call's result.
pub open spec fn next_step(
    call: CallView,
    outcome: Result<IpcResponseView, SidecarErrorView>,
) -> StepView {
    match outcome {
        Ok(response) => if response.success {
            StepView::Done(Ok(response))
        } else {
            StepView::Done(Err(SidecarErrorView::SidecarError(failure_message(response))))
        },
        Err(error) => if error.is_application() {
            StepView::Done(Err(error))
        } else if call.attempt < call.max_retries {
            StepView::Send {
                call: CallView { attempt: call.attempt + 1, ..call },
                delay_ms: backoff_ms(call.attempt),
                command: attempt_command(call.func, call.params, call.attempt + 1),
            }
        } else {
            StepView::Done(Err(error))
        },
    }
}

/// How a call ended: its result and the number of commands that were sent.
pub struct Finished {
    pub result: Result<IpcResponseView, SidecarErrorView>,
    pub attempts: nat,
}

/// A call from one of its steps on, where `outcomes[i]` is what came back
/// from the `i`-th command sent, counted from 0, and `sent` commands were sent
/// already. `None` where the outcomes end before the call does.
pub open spec fn run_from(
    step: StepView,
    outcomes: Seq<Result<IpcResponseView, SidecarErrorView>>,
    sent: nat,
) -> Option<Finished>
    decreases outcomes.len() - sent,
{
    match step {
        StepView::Done(result) => Some(Finished { result, attempts: sent }),
        StepView::Send { call, delay_ms, command } => if sent < outcomes.len() {
            run_from(next_step(call, outcomes[sent as int]), outcomes, sent + 1)
        } else {
            None
        },
    }
}

/// A whole call, where `outcomes[i]` is what came back from the `i`-th
/// command sent, counted from 0.
pub open spec fn run(
    func: Seq<char>,
    params: serde_json::Value,
    max_retries: nat,
    outcomes: Seq<Result<IpcResponseView, SidecarErrorView>>,
) -> Option<Finished> {
    run_from(first_step(func, params, max_retries), outcomes, 0)
}

/// The payload of what a call returned: the data of a success. A success
/// without data is an invalid response.
pub open spec fn typed_payload(outcome: Result<IpcResponseView, SidecarErrorView>) -> Result<
    serde_json::Value,
    SidecarErrorView,
> {
    match outcome {
        Err(error) => Err(error),
        Ok(response) => if response.success {
            match response.data {
                Some(data) => Ok(data),
                None => Err(SidecarErrorView::InvalidResponse("Response contains no data"@)),
            }
        } else {
            Err(SidecarErrorView::SidecarError(failure_message(response)))
        },
    }
}

/// The failure of a payload that does not have the shape asked for.
pub open spec fn undecodable(detail: Seq<char>) -> SidecarErrorView {
    SidecarErrorView::InvalidResponse("Failed to parse data: "@ + detail)
}

/// The attempts of one call have ids of their own: two attempts with
/// different numbers never share an id.
pub proof fn lemma_attempt_ids_distinct(func: Seq<char>, a: nat, b: nat)
    requires
        a != b,
    ensures
        attempt_id(func, a) != attempt_id(func, b),
{
    let prefix = func + "-"@;
    if attempt_id(func, a) == attempt_id(func, b) {
        assert((prefix + decimal(a)).subrange(
            prefix.len() as int,
            (prefix + decimal(a)).len() as int,
        ) =~= decimal(a));
        assert((prefix + decimal(b)).subrange(
            prefix.len() as int,
            (prefix + decimal(b)).len() as int,
        ) =~= decimal(b));
        lemma_decimal_injective(a, b);
    }
}

/// Whether what came back from a command is a failure that the worker did
/// not report itself.
pub open spec fn is_retried(outcome: Result<IpcResponseView, SidecarErrorView>) -> bool {
    outcome matches Err(error) && !error.is_application()
}

/// Whether what came back from a command is a rejection by the worker: a
/// response that reports a failure, or that failure where the caller has
/// turned it into one already.
pub open spec fn is_rejection(outcome: Result<IpcResponseView, SidecarErrorView>) -> bool {
    match outcome {
        Ok(response) => !response.success,
        Err(error) => error.is_application(),
    }
}

proof fn lemma_run_of_failures(
    call: CallView,
    delay_ms: nat,
    command: IpcCommandView,
    outcomes: Seq<Result<IpcResponseView, SidecarErrorView>>,
)
    requires
        1 <= call.attempt <= call.max_retries,
        outcomes.len() == call.max_retries,
        forall|i: int| call.attempt - 1 <= i < outcomes.len() ==> is_retried(#[trigger] outcomes[i]),
    ensures
        run_from(StepView::Send { call, delay_ms, command }, outcomes, (call.attempt - 1) as nat)
            == Some(Finished { result: outcomes.last(), attempts: call.max_retries }),
    decreases call.max_retries - call.attempt,
{
    let sent = (call.attempt - 1) as nat;
    let step = StepView::Send { call, delay_ms, command };
    let after = next_step(call, outcomes[sent as int]);
    assert(is_retried(outcomes[sent as int]));
    assert(run_from(step, outcomes, sent) == run_from(after, outcomes, sent + 1));
    if call.attempt < call.max_retries {
        lemma_run_of_failures(
            CallView { attempt: call.attempt + 1, ..call },
            backoff_ms(call.attempt),
            attempt_command(call.func, call.params, call.attempt + 1),
            outcomes,
        );
    } else {
        assert(after == StepView::Done(outcomes[sent as int]));
        assert(run_from(after, outcomes, sent + 1) == Some(
            Finished { result: outcomes[sent as int], attempts: sent + 1 },
        ));
    }
}

/// A call whose every attempt fails without the worker's doing uses up its
/// attempts, and its result is the last of these failures; a call that is
/// allowed no attempt ends in a timeout. Either way the result is no
/// rejection by the worker.
pub proof fn lemma_failing_call_exhausts(
    func: Seq<char>,
    params: serde_json::Value,
    max_retries: nat,
    outcomes: Seq<Result<IpcResponseView, SidecarErrorView>>,
)
    requires
        outcomes.len() == max_retries,
        forall|i: int| 0 <= i < outcomes.len() ==> is_retried(#[trigger] outcomes[i]),
    ensures
        run(func, params, max_retries, outcomes) == Some(
            Finished {
                result: if max_retries == 0 {
                    Err(SidecarErrorView::Timeout(no_attempt_message(func, max_retries)))
                } else {
                    outcomes.last()
                },
                attempts: max_retries,
            },
        ),
        run(func, params, max_retries, outcomes) matches Some(finished) && (
        finished.result matches Err(error) && !error.is_application()),
{
    if max_retries > 0 {
        lemma_run_of_failures(
            CallView { func, params, max_retries, attempt: 1 },
            0,
            attempt_command(func, params, 1),
            outcomes,
        );
        assert(is_retried(outcomes[max_retries - 1]));
    }
}

/// Where the worker never responds, so that every attempt ends in a failure
/// of delivery, the call uses up its attempts and ends in a failure of
/// delivery, never in a rejection by the worker.
pub proof fn lemma_unanswered_call_exhausts(
    func: Seq<char>,
    params: serde_json::Value,
    max_retries: nat,
    outcomes: Seq<Result<IpcResponseView, SidecarErrorView>>,
)
    requires
        outcomes.len() == max_retries,
        forall|i: int|
            0 <= i < outcomes.len() ==> (#[trigger] outcomes[i] matches Err(error)
                && error.is_transport()),
    ensures
        run(func, params, max_retries, outcomes) matches Some(finished) && finished.attempts
            == max_retries && (finished.result matches Err(error) && error.is_transport()
            && !error.is_application()),
{
    assert forall|i: int| 0 <= i < outcomes.len() implies is_retried(#[trigger] outcomes[i]) by {
        assert(outcomes[i] matches Err(error) && error.is_transport());
    }
    lemma_failing_call_exhausts(func, params, max_retries, outcomes);
    if max_retries > 0 {
        assert(outcomes[max_retries - 1] matches Err(error) && error.is_transport());
    }
}

proof fn lemma_run_is_bounded(
    call: CallView,
    delay_ms: nat,
    command: IpcCommandView,
    outcomes: Seq<Result<IpcResponseView, SidecarErrorView>>,
)
    requires
        1 <= call.attempt <= call.max_retries,
        outcomes.len() >= call.max_retries,
    ensures
        run_from(StepView::Send { call, delay_ms, command }, outcomes, (call.attempt - 1) as nat)
            matches Some(finished) && call.attempt <= finished.attempts <= call.max_retries && (
        finished.result matches Ok(response) ==> response.success),
    decreases call.max_retries - call.attempt,
{
    let sent = (call.attempt - 1) as nat;
    let step = StepView::Send { call, delay_ms, command };
    let after = next_step(call, outcomes[sent as int]);
    assert(run_from(step, outcomes, sent) == run_from(after, outcomes, sent + 1));
    match after {
        StepView::Done(result) => {
            assert(run_from(after, outcomes, sent + 1) == Some(
                Finished { result, attempts: sent + 1 },
            ));
        },
        StepView::Send { call: next, delay_ms: pause, command: resent } => {
            lemma_run_is_bounded(next, pause, resent, outcomes);
        },
    }
}

/// A call sends no more commands than the attempts it is allowed, and where
/// it ends in a response, that response reports success.
pub proof fn lemma_call_ends_within_its_attempts(
    func: Seq<char>,
    params: serde_json::Value,
    max_retries: nat,
    outcomes: Seq<Result<IpcResponseView, SidecarErrorView>>,
)
    requires
        outcomes.len() >= max_retries,
    ensures
        run(func, params, max_retries, outcomes) matches Some(finished) && finished.attempts
            <= max_retries && (finished.result matches Ok(response) ==> response.success),
{
    if max_retries > 0 {
        lemma_run_is_bounded(
            CallView { func, params, max_retries, attempt: 1 },
            0,
            attempt_command(func, params, 1),
            outcomes,
        );
    }
}

/// A call whose first command the worker rejects ends with that one
/// attempt, in the worker's rejection: nothing is sent again.
pub proof fn lemma_rejection_is_not_retried(
    func: Seq<char>,
    params: serde_json::Value,
    max_retries: nat,
    outcomes: Seq<Result<IpcResponseView, SidecarErrorView>>,
)
    requires
        max_retries >= 1,
        outcomes.len() >= 1,
        is_rejection(outcomes[0]),
    ensures
        run(func, params, max_retries, outcomes) matches Some(finished) && finished.attempts == 1
            && (finished.result matches Err(error) && error.is_application()),
{
    let first = first_step(func, params, max_retries);
    let call = CallView { func, params, max_retries, attempt: 1 };
    assert(run_from(next_step(call, outcomes[0]), outcomes, 1) is Some);
}

/// A call whose first command is answered with a success ends with that one
/// attempt, in that response.
pub proof fn lemma_success_ends_call(
    func: Seq<char>,
    params: serde_json::Value,
    max_retries: nat,
    outcomes: Seq<Result<IpcResponseView, SidecarErrorView>>,
)
    requires
        max_retries >= 1,
        outcomes.len() >= 1,
        outcomes[0] matches Ok(response) && response.success,
    ensures
        run(func, params, max_retries, outcomes) == Some(
            Finished { result: outcomes[0], attempts: 1 },
        ),
{
    let call = CallView { func, params, max_retries, attempt: 1 };
    assert(run_from(next_step(call, outcomes[0]), outcomes, 1) is Some);
}

/// The correlation id of an attempt.
pub fn attempt_id_text(func: &str, attempt: u32) -> (id: String)
    ensures
        id@ == attempt_id(func@, attempt as nat),
{
    let mut id = String::from_str(func);
    id.append("-");
    let digits = decimal_text(attempt as u64);
    id.append(digits.as_str());
    id
}

impl Call {
    /// The operation that is called.
    pub fn func(&self) -> (func: &str)
        ensures
            func@ == self@.func,
    {
        self.func.as_str()
    }

    /// The number of the attempt in flight, counted from 1.
    pub fn attempt(&self) -> (attempt: u32)
        ensures
            attempt == self@.attempt,
    {
        self.attempt
    }

    /// The attempts that the call is allowed.
    pub fn max_retries(&self) -> (max_retries: u32)
        ensures
            max_retries == self@.max_retries,
    {
        self.max_retries
    }

    /// Begins a call.
    pub fn begin(func: &str, params: serde_json::Value, max_retries: u32) -> (step: Step)
        ensures
            step@ == first_step(func@, params, max_retries as nat),
    {
        if max_retries == 0 {
            let mut message = String::from_str("Failed to execute command '");
            message.append(func);
            message.append("' after ");
            let digits = decimal_text(max_retries as u64);
            message.append(digits.as_str());
            message.append(" attempts");
            Step::Done(Err(SidecarError::Timeout(message)))
        } else {
            let command = IpcCommand {
                id: attempt_id_text(func, 1),
                func: func.to_owned(),
                params: params.clone(),
            };
            Step::Send {
                call: Call { func: func.to_owned(), params, max_retries, attempt: 1 },
                delay_ms: 0,
                command,
            }
        }
    }

    /// Goes on after the attempt in flight: `outcome` is what the supervisor
    /// returned for the command that was sent. A response that reports
    /// success is returned as it is.
    pub fn next(self, outcome: Result<IpcResponse, SidecarError>) -> (step: Step)
        ensures
            step@ == next_step(self@, outcome_view(outcome)),
            outcome matches Ok(response) ==> (response.success ==> step == Step::Done(
                Ok(response),
            )),
    {
        match outcome {
            Ok(response) => {
                if response.success {
                    Step::Done(Ok(response))
                } else {
                    Step::Done(Err(SidecarError::SidecarError(failure_text(&response))))
                }
            },
            Err(error) => {
                if error.is_application() {
                    Step::Done(Err(error))
                } else if self.attempt < self.max_retries {
                    let attempt: u32 = self.attempt + 1;
                    let delay_ms: u64 = 100 * (self.attempt as u64);
                    let command = IpcCommand {
                        id: attempt_id_text(self.func.as_str(), attempt),
                        func: self.func.clone(),
                        params: self.params.clone(),
                    };
                    Step::Send {
                        call: Call {
                            func: self.func,
                            params: self.params,
                            max_retries: self.max_retries,
                            attempt,
                        },
                        delay_ms,
                        command,
                    }
                } else {
                    Step::Done(Err(error))
                }
            },
        }
    }
}

/// The payload of what a call returned.
pub fn payload_of(outcome: Result<IpcResponse, SidecarError>) -> (payload: Result<
    serde_json::Value,
    SidecarError,
>)
    ensures
        payload_view(payload) == typed_payload(outcome_view(outcome)),
{
    match outcome {
        Err(error) => Err(error),
        Ok(response) => {
            if response.success {
                match response.data {
                    Some(data) => Ok(data),
                    None => Err(
                        SidecarError::InvalidResponse(
                            String::from_str("Response contains no data"),
                        ),
                    ),
                }
            } else {
                Err(SidecarError::SidecarError(failure_text(&response)))
            }
        },
    }
}

/// The failure of a payload that does not have the shape asked for;
/// `detail` is the decoder's message.
pub fn decode_failure(detail: &str) -> (error: SidecarError)
    ensures
        error@ == undecodable(detail@),
{
    let mut message = String::from_str("Failed to parse data: ");
    message.append(detail);
    SidecarError::InvalidResponse(message)
}

/// The view of a payload, or of the failure in its place.
pub open spec fn payload_view(payload: Result<serde_json::Value, SidecarError>) -> Result<
    serde_json::Value,
    SidecarErrorView,
> {
    match payload {
        Ok(data) => Ok(data),
        Err(error) => Err(error@),
    }
}

/// Whether `result` is what a typed call returns for a payload that the
/// decoder turned into `decoded`.
pub open spec fn is_typed_result<T>(
    decoded: Result<T, String>,
    result: Result<T, SidecarError>,
) -> bool {
    match decoded {
        Ok(value) => result == Ok::<T, SidecarError>(value),
        Err(detail) => result matches Err(error) && error@ == undecodable(detail@),
    }
}

/// The client of one worker.
pub struct SidecarClient<W> {
    manager: SidecarManager<W>,
}

impl<W> View for SidecarClient<W> {
    type V = SidecarManagerView<W>;

    closed spec fn view(&self) -> SidecarManagerView<W> {
        self.manager@
    }
}

impl<W> SidecarClient<W> {
    /// A client of the worker that this supervisor looks after.
    pub fn new(manager: SidecarManager<W>) -> (client: Self)
        ensures
            client@ == manager@,
    {
        SidecarClient { manager }
    }

    /// A client of the default worker, not yet started.
    pub fn with_default(beside_host: Option<String>, beside_host_exists: bool) -> (made: Result<
        Self,
        SidecarError,
    >)
        ensures
            made matches Ok(client) && client@ == (SidecarManagerView {
                executable_path: super::manager::default_path(
                    match beside_host {
                        Some(path) => Some(path@),
                        None => None,
                    },
                    beside_host_exists,
                ),
                running: false,
                pending: Map::<Seq<char>, W>::empty(),
            }),
    {
        match SidecarManager::with_default(beside_host, beside_host_exists) {
            Ok(manager) => Ok(SidecarClient { manager }),
            Err(_) => Err(SidecarError::NotFound(String::from_str("sidecar"))),
        }
    }

    /// The supervisor.
    pub fn manager(&self) -> (manager: &SidecarManager<W>)
        ensures
            manager@ == self@,
    {
        &self.manager
    }

    /// The supervisor, to hand events to.
    pub fn manager_mut(&mut self) -> (manager: &mut SidecarManager<W>)
        ensures
            manager@ == old(self)@,
            final(self)@ == final(manager)@,
    {
        &mut self.manager
    }

    /// Whether the worker that is held must be stopped before another is
    /// launched, as the supervisor says.
    pub fn must_stop_first(&self) -> (b: bool)
        ensures
            b == self@.running,
    {
        self.manager.must_stop_first()
    }

    /// Takes note of how a launch of the worker ended, as the supervisor
    /// does. No worker is held when the executable is launched.
    pub fn start(&mut self, launch: Launch) -> (started: Result<(), SidecarError>)
        requires
            !old(self)@.running,
        ensures
            super::manager::outcome_of_start(started) == super::manager::start_result(
                old(self)@.executable_path,
                launch,
            ),
            final(self)@.executable_path == old(self)@.executable_path,
            final(self)@.pending == old(self)@.pending,
            final(self)@.running == (launch is Started),
    {
        self.manager.start(launch)
    }

    /// Lets go of the worker, as the supervisor does.
    pub fn stop(&mut self, kill: Result<(), String>) -> (stopped: Result<(), SidecarError>)
        ensures
            !final(self)@.running,
            final(self)@.executable_path == old(self)@.executable_path,
            final(self)@.pending == old(self)@.pending,
            !old(self)@.running ==> stopped is Ok,
            old(self)@.running ==> match kill {
                Ok(_) => stopped is Ok,
                Err(detail) => stopped matches Err(error) && error@ == SidecarErrorView::IoError(
                    detail@,
                ),
            },
    {
        self.manager.stop(kill)
    }

    /// Whether the supervisor holds a process.
    pub fn is_running(&self) -> (b: bool)
        ensures
            b == self@.running,
    {
        self.manager.is_running()
    }

    /// Begins a call with the default number of attempts.
    pub fn send_command(&self, func: &str, params: serde_json::Value) -> (step: Step)
        ensures
            step@ == first_step(func@, params, 3),
    {
        self.send_command_with_retry(func, params, DEFAULT_ATTEMPTS)
    }

    /// Begins a call with at most `max_retries` attempts.
    pub fn send_command_with_retry(
        &self,
        func: &str,
        params: serde_json::Value,
        max_retries: u32,
    ) -> (step: Step)
        ensures
            step@ == first_step(func@, params, max_retries as nat),
    {
        Call::begin(func, params, max_retries)
    }

    /// Ends a typed call: `outcome` is what the call returned, and `decode`
    /// turns a payload into the shape asked for, or into its complaint. A
    /// success without data, and a payload that `decode` refuses, are invalid
    /// responses.
    pub fn send_command_typed<T, F: FnOnce(serde_json::Value) -> Result<T, String>>(
        &self,
        outcome: Result<IpcResponse, SidecarError>,
        decode: F,
    ) -> (result: Result<T, SidecarError>)
        requires
            forall|data: serde_json::Value| decode.requires((data,)),
        ensures
            match typed_payload(outcome_view(outcome)) {
                Err(error) => result matches Err(returned) && returned@ == error,
                Ok(data) => exists|decoded: Result<T, String>|
                    decode.ensures((data,), decoded) && is_typed_result(decoded, result),
            },
    {
        match payload_of(outcome) {
            Err(error) => Err(error),
            Ok(data) => {
                let decoded = decode(data);
                let result = match decoded {
                    Ok(value) => Ok(value),
                    Err(detail) => Err(decode_failure(detail.as_str())),
                };
                assert(decode.ensures((data,), decoded) && is_typed_result(decoded, result));
                result
            },
        }
    }
}

} // verus!
