use accounting_assistant::sidecar::client::{
    attempt_id_text, decode_failure, payload_of, Call, Step, DEFAULT_ATTEMPTS,
};
use accounting_assistant::sidecar::manager::Launch;
use accounting_assistant::sidecar::{
    IpcCommand, IpcResponse, SidecarClient, SidecarError, SidecarManager,
};
use std::collections::HashMap;

fn object(key: &str, value: &str) -> serde_json::Value {
    let mut map = serde_json::Map::new();
    map.insert(key.to_string(), serde_json::Value::String(value.to_string()));
    serde_json::Value::Object(map)
}

fn client() -> SidecarClient<u32> {
    SidecarClient::new(SidecarManager::new("/opt/worker", true).unwrap())
}

/// Runs a call against a worker that answers the `n`-th command with `answer(n, command)`.
fn run(
    first: Step,
    mut answer: impl FnMut(usize, &IpcCommand) -> Result<IpcResponse, SidecarError>,
) -> (Result<IpcResponse, SidecarError>, Vec<String>, Vec<u64>) {
    let mut ids = Vec::new();
    let mut delays = Vec::new();
    let mut step = first;
    loop {
        match step {
            Step::Done(result) => return (result, ids, delays),
            Step::Send { call, delay_ms, command } => {
                delays.push(delay_ms);
                ids.push(command.id.clone());
                let outcome = answer(ids.len(), &command);
                step = call.next(outcome);
            }
        }
    }
}

fn timeout(command: &IpcCommand) -> Result<IpcResponse, SidecarError> {
    Err(SidecarError::Timeout(format!("No response for command {}", command.id)))
}

#[test]
fn the_default_policy_is_three_attempts() {
    assert_eq!(DEFAULT_ATTEMPTS, 3);
    let (result, ids, delays) =
        run(client().send_command("test", serde_json::Value::Null), |_, c| timeout(c));
    assert_eq!(ids, vec!["test-1", "test-2", "test-3"]);
    assert_eq!(delays, vec![0, 100, 200]);
    match result {
        Err(SidecarError::Timeout(message)) => assert_eq!(message, "No response for command test-3"),
        _ => panic!("expected Timeout"),
    }
}

#[test]
fn a_silent_worker_exhausts_the_attempts() {
    for max in [1u32, 2, 5, 8] {
        let first = client().send_command_with_retry("op", object("k", "v"), max);
        let (result, ids, delays) = run(first, |_, c| timeout(c));
        assert_eq!(ids.len(), max as usize);
        for (i, id) in ids.iter().enumerate() {
            assert_eq!(id, &format!("op-{}", i + 1));
        }
        for (i, delay) in delays.iter().enumerate() {
            assert_eq!(*delay, 100 * i as u64);
        }
        let error = result.unwrap_err();
        assert!(error.is_transport());
        assert!(!error.is_application());
        assert!(matches!(error, SidecarError::Timeout(_)));
    }
}

#[test]
fn every_attempt_sends_the_same_operation_and_parameters() {
    let first = client().send_command_with_retry("op", object("k", "v"), 3);
    let mut commands = Vec::new();
    let _ = run(first, |_, command| {
        commands.push(command.clone());
        Err(SidecarError::IoError("pipe".to_string()))
    });
    assert_eq!(commands.len(), 3);
    for command in commands {
        assert_eq!(command.func, "op");
        assert_eq!(command.params, object("k", "v"));
    }
}

#[test]
fn a_rejection_is_returned_on_the_first_attempt() {
    let first = client().send_command_with_retry("op", serde_json::Value::Null, 3);
    let (result, ids, delays) = run(first, |_, c| Ok(IpcResponse::error(&c.id, "not allowed")));
    assert_eq!(ids, vec!["op-1"]);
    assert_eq!(delays, vec![0]);
    match result {
        Err(SidecarError::SidecarError(message)) => assert_eq!(message, "not allowed"),
        _ => panic!("expected SidecarError"),
    }
}

#[test]
fn a_rejection_that_the_supervisor_reports_is_not_retried() {
    let first = client().send_command_with_retry("op", serde_json::Value::Null, 3);
    let (result, ids, _) =
        run(first, |_, _| Err(SidecarError::SidecarError("not allowed".to_string())));
    assert_eq!(ids.len(), 1);
    match result {
        Err(SidecarError::SidecarError(message)) => assert_eq!(message, "not allowed"),
        _ => panic!("expected SidecarError"),
    }
}

#[test]
fn a_rejection_without_a_message_is_an_unknown_error() {
    let first = client().send_command_with_retry("op", serde_json::Value::Null, 3);
    let (result, ids, _) = run(first, |_, c| {
        Ok(IpcResponse { id: c.id.clone(), success: false, data: None, error: None })
    });
    assert_eq!(ids.len(), 1);
    match result {
        Err(SidecarError::SidecarError(message)) => assert_eq!(message, "Unknown error"),
        _ => panic!("expected SidecarError"),
    }
}

#[test]
fn a_success_after_failures_ends_the_call() {
    let first = client().send_command_with_retry("op", serde_json::Value::Null, 5);
    let (result, ids, delays) = run(first, |n, c| {
        if n < 3 {
            Err(SidecarError::IoError("pipe".to_string()))
        } else {
            Ok(IpcResponse::success(&c.id, Some(object("n", "3"))))
        }
    });
    assert_eq!(ids, vec!["op-1", "op-2", "op-3"]);
    assert_eq!(delays, vec![0, 100, 200]);
    let response = result.unwrap();
    assert_eq!(response.id, "op-3");
    assert_eq!(response.data, Some(object("n", "3")));
}

#[test]
fn a_rejection_after_failures_ends_the_call() {
    let first = client().send_command_with_retry("op", serde_json::Value::Null, 5);
    let (result, ids, _) = run(first, |n, c| {
        if n < 2 {
            timeout(c)
        } else {
            Ok(IpcResponse::error(&c.id, "no"))
        }
    });
    assert_eq!(ids.len(), 2);
    assert!(matches!(result, Err(SidecarError::SidecarError(m)) if m == "no"));
}

#[test]
fn the_last_failure_is_the_calls_result() {
    let first = client().send_command_with_retry("op", serde_json::Value::Null, 3);
    let (result, _, _) = run(first, |n, _| match n {
        1 => Err(SidecarError::IoError("first".to_string())),
        2 => Err(SidecarError::SpawnError("second".to_string())),
        _ => Err(SidecarError::InvalidResponse("third".to_string())),
    });
    assert!(matches!(result, Err(SidecarError::InvalidResponse(m)) if m == "third"));
}

#[test]
fn a_call_without_attempts_sends_nothing() {
    let first = client().send_command_with_retry("op", serde_json::Value::Null, 0);
    let (result, ids, _) = run(first, |_, c| timeout(c));
    assert!(ids.is_empty());
    match result {
        Err(error) => {
            assert!(error.is_transport());
            assert_eq!(
                error.to_string(),
                "Timeout waiting for response: Failed to execute command 'op' after 0 attempts"
            );
        }
        _ => panic!("expected Timeout"),
    }
}

#[test]
fn the_call_in_flight_knows_its_place() {
    match Call::begin("op", serde_json::Value::Null, 4) {
        Step::Send { call, delay_ms, command } => {
            assert_eq!(call.func(), "op");
            assert_eq!(call.attempt(), 1);
            assert_eq!(call.max_retries(), 4);
            assert_eq!(delay_ms, 0);
            assert_eq!(command.id, "op-1");
            match call.next(Err(SidecarError::IoError("x".to_string()))) {
                Step::Send { call, delay_ms, command } => {
                    assert_eq!(call.attempt(), 2);
                    assert_eq!(call.max_retries(), 4);
                    assert_eq!(delay_ms, 100);
                    assert_eq!(command.id, "op-2");
                }
                _ => panic!("expected a second attempt"),
            }
        }
        _ => panic!("expected a first attempt"),
    }
}

#[test]
fn attempts_have_ids_of_their_own() {
    assert_eq!(attempt_id_text("test", 1), "test-1");
    assert_eq!(attempt_id_text("test", 10), "test-10");
    assert_eq!(attempt_id_text("", 3), "-3");
    assert_eq!(attempt_id_text("a-b", 4294967295), "a-b-4294967295");
    let mut seen = std::collections::HashSet::new();
    for n in 1..=200u32 {
        assert!(seen.insert(attempt_id_text("op", n)));
    }
}

#[test]
fn the_backoff_grows_by_a_tenth_of_a_second() {
    let first = client().send_command_with_retry("op", serde_json::Value::Null, 6);
    let (_, _, delays) = run(first, |_, c| timeout(c));
    assert_eq!(delays, vec![0, 100, 200, 300, 400, 500]);
}

#[test]
fn ping_scenario() {
    let mut client: SidecarClient<u32> =
        SidecarClient::new(SidecarManager::new("/opt/worker", true).unwrap());
    client.start(Launch::Started).unwrap();

    // the caller's command, under the id of the scenario
    let command = IpcCommand::new("ping-1", "test", object("message", "hi"));
    let line = client.manager_mut().send_command(&command, 1).unwrap();
    let sent: serde_json::Value = serde_json::from_str(line.trim_end()).unwrap();
    assert_eq!(sent.get("id").and_then(|v| v.as_str()), Some("ping-1"));
    assert_eq!(sent.get("func").and_then(|v| v.as_str()), Some("test"));
    assert_eq!(sent.get("params"), Some(&object("message", "hi")));

    let reply = "{\"id\":\"ping-1\",\"success\":true,\"data\":{\"echo\":\"hi\"}}";
    let (waiter, response) = client.manager_mut().on_response_line(reply).unwrap();
    assert_eq!(waiter, 1);
    let outcome = client.manager_mut().receive("ping-1", Some(response));

    let echo: HashMap<String, String> = client
        .send_command_typed(outcome, |data| {
            serde_json::from_value::<HashMap<String, String>>(data).map_err(|e| e.to_string())
        })
        .unwrap();
    assert_eq!(echo.len(), 1);
    assert_eq!(echo.get("echo"), Some(&"hi".to_string()));
}

#[test]
fn a_typed_call_needs_data() {
    let client = client();
    let decode = |data: serde_json::Value| {
        serde_json::from_value::<String>(data).map_err(|e| e.to_string())
    };
    let result = client.send_command_typed(Ok(IpcResponse::success("a", None)), decode);
    match result {
        Err(SidecarError::InvalidResponse(message)) => {
            assert_eq!(message, "Response contains no data")
        }
        _ => panic!("expected InvalidResponse"),
    }
}

#[test]
fn a_typed_call_refuses_a_payload_of_another_shape() {
    let client = client();
    let result = client.send_command_typed(
        Ok(IpcResponse::success("a", Some(object("echo", "hi")))),
        |data| serde_json::from_value::<Vec<u32>>(data).map_err(|e| e.to_string()),
    );
    match result {
        Err(SidecarError::InvalidResponse(message)) => {
            assert!(message.starts_with("Failed to parse data: "));
            assert!(message.len() > "Failed to parse data: ".len());
        }
        _ => panic!("expected InvalidResponse"),
    }
}

#[test]
fn a_typed_call_passes_failures_on() {
    let client = client();
    let decode = |data: serde_json::Value| {
        serde_json::from_value::<String>(data).map_err(|e| e.to_string())
    };
    assert!(matches!(
        client.send_command_typed(Err(SidecarError::Timeout("t".to_string())), decode),
        Err(SidecarError::Timeout(m)) if m == "t"
    ));
    assert!(matches!(
        client.send_command_typed(Ok(IpcResponse::error("a", "no")), decode),
        Err(SidecarError::SidecarError(m)) if m == "no"
    ));
    assert_eq!(
        client
            .send_command_typed(
                Ok(IpcResponse::success("a", Some(serde_json::Value::String("s".to_string())))),
                decode
            )
            .unwrap(),
        "s"
    );
}

#[test]
fn the_payload_is_the_data_of_a_success() {
    assert_eq!(
        payload_of(Ok(IpcResponse::success("a", Some(object("k", "v"))))).unwrap(),
        object("k", "v")
    );
    assert!(matches!(
        payload_of(Ok(IpcResponse::success("a", None))),
        Err(SidecarError::InvalidResponse(m)) if m == "Response contains no data"
    ));
    assert!(matches!(
        payload_of(Ok(IpcResponse { id: "a".to_string(), success: false, data: Some(object("k", "v")), error: None })),
        Err(SidecarError::SidecarError(m)) if m == "Unknown error"
    ));
    assert!(matches!(
        payload_of(Err(SidecarError::IoError("x".to_string()))),
        Err(SidecarError::IoError(m)) if m == "x"
    ));
    assert!(matches!(
        decode_failure("expected a string"),
        SidecarError::InvalidResponse(m) if m == "Failed to parse data: expected a string"
    ));
}

#[test]
fn the_client_forwards_to_its_supervisor() {
    let mut client: SidecarClient<u32> = SidecarClient::with_default(None, false).unwrap();
    assert!(!client.is_running());
    assert_eq!(client.manager().executable_path(), "bun-sidecar-x86_64-pc-windows-mscv.exe");
    assert!(matches!(client.start(Launch::Missing), Err(SidecarError::NotFound(_))));
    assert!(!client.is_running());
    assert!(client.start(Launch::Started).is_ok());
    assert!(client.is_running());
    assert!(client.manager().is_running());
    assert!(client.stop(Ok(())).is_ok());
    assert!(!client.is_running());
    assert!(client.stop(Ok(())).is_ok());
}

#[test]
fn test_call_scenario() {
    let mut client: SidecarClient<u32> =
        SidecarClient::new(SidecarManager::new("/opt/worker", true).unwrap());
    assert!(!client.must_stop_first());
    client.start(Launch::Started).unwrap();
    assert!(client.must_stop_first());

    let mut sent = Vec::new();
    let mut step = client.send_command("test", object("message", "hi"));
    let result = loop {
        match step {
            Step::Done(result) => break result,
            Step::Send { call, delay_ms: _, command } => {
                let line = client.manager_mut().send_command(&command, 1).unwrap();
                sent.push(line);
                let reply = format!(
                    "{{\"id\":\"{}\",\"success\":true,\"data\":{{\"echo\":\"hi\"}}}}",
                    command.id
                );
                let (_, response) = client.manager_mut().on_response_line(&reply).unwrap();
                let outcome = client.manager_mut().receive(&command.id, Some(response));
                step = call.next(outcome);
            }
        }
    };
    assert_eq!(sent.len(), 1);
    let written: serde_json::Value = serde_json::from_str(sent[0].trim_end()).unwrap();
    assert_eq!(written.get("id").and_then(|v| v.as_str()), Some("test-1"));
    assert_eq!(written.get("func").and_then(|v| v.as_str()), Some("test"));
    assert_eq!(written.get("params"), Some(&object("message", "hi")));

    let echo: HashMap<String, String> = client
        .send_command_typed(result, |data| {
            serde_json::from_value::<HashMap<String, String>>(data).map_err(|e| e.to_string())
        })
        .unwrap();
    assert_eq!(echo.get("echo"), Some(&"hi".to_string()));
}

#[test]
fn the_supervisor_returns_a_failure_and_the_client_turns_it_into_a_rejection() {
    let mut manager: SidecarManager<u32> = SidecarManager::new("/opt/worker", true).unwrap();
    manager.start(Launch::Started).unwrap();
    let mut attempts = 0;
    let mut step = Call::begin("op", serde_json::Value::Null, 3);
    let result = loop {
        match step {
            Step::Done(result) => break result,
            Step::Send { call, delay_ms: _, command } => {
                attempts += 1;
                manager.send_command(&command, 1).unwrap();
                let reply = format!(
                    "{{\"id\":\"{}\",\"success\":false,\"error\":\"not allowed\"}}",
                    command.id
                );
                let (_, response) = manager.on_response_line(&reply).unwrap();
                let outcome = manager.receive(&command.id, Some(response));
                assert!(matches!(&outcome, Ok(r) if !r.success));
                step = call.next(outcome);
            }
        }
    };
    assert_eq!(attempts, 1);
    assert!(matches!(result, Err(SidecarError::SidecarError(m)) if m == "not allowed"));
}
