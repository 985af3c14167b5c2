use accounting_assistant::sidecar::SidecarError;

#[test]
fn every_failure_has_its_words() {
    assert_eq!(
        SidecarError::NotFound("/bin/worker".to_string()).to_string(),
        "Sidecar executable not found: /bin/worker"
    );
    assert_eq!(
        SidecarError::SpawnError("denied".to_string()).to_string(),
        "Failed to spawn sidecar process: denied"
    );
    assert_eq!(SidecarError::IoError("broken pipe".to_string()).to_string(), "IO error: broken pipe");
    assert_eq!(SidecarError::JsonError("eof".to_string()).to_string(), "JSON error: eof");
    assert_eq!(
        SidecarError::Timeout("No response for command a-1".to_string()).to_string(),
        "Timeout waiting for response: No response for command a-1"
    );
    assert_eq!(
        SidecarError::ProcessExit(3).to_string(),
        "Sidecar process exited with code: 3"
    );
    assert_eq!(
        SidecarError::InvalidResponse("Sidecar not started".to_string()).to_string(),
        "Invalid response: Sidecar not started"
    );
    assert_eq!(SidecarError::SidecarError("no".to_string()).to_string(), "Sidecar error: no");
}

#[test]
fn exit_codes_are_written_with_their_sign() {
    assert_eq!(SidecarError::ProcessExit(0).to_string(), "Sidecar process exited with code: 0");
    assert_eq!(SidecarError::ProcessExit(-1).to_string(), "Sidecar process exited with code: -1");
    assert_eq!(
        SidecarError::ProcessExit(i32::MIN).to_string(),
        "Sidecar process exited with code: -2147483648"
    );
    assert_eq!(
        SidecarError::ProcessExit(i32::MAX).to_string(),
        "Sidecar process exited with code: 2147483647"
    );
}

#[test]
fn failures_of_delivery_are_launch_pipes_and_waiting() {
    let s = || "x".to_string();
    assert!(SidecarError::SpawnError(s()).is_transport());
    assert!(SidecarError::IoError(s()).is_transport());
    assert!(SidecarError::Timeout(s()).is_transport());
    assert!(!SidecarError::NotFound(s()).is_transport());
    assert!(!SidecarError::JsonError(s()).is_transport());
    assert!(!SidecarError::ProcessExit(1).is_transport());
    assert!(!SidecarError::InvalidResponse(s()).is_transport());
    assert!(!SidecarError::SidecarError(s()).is_transport());
}

#[test]
fn only_the_workers_rejection_is_of_the_application() {
    let s = || "x".to_string();
    assert!(SidecarError::SidecarError(s()).is_application());
    assert!(!SidecarError::SpawnError(s()).is_application());
    assert!(!SidecarError::IoError(s()).is_application());
    assert!(!SidecarError::Timeout(s()).is_application());
    assert!(!SidecarError::NotFound(s()).is_application());
    assert!(!SidecarError::JsonError(s()).is_application());
    assert!(!SidecarError::ProcessExit(1).is_application());
    assert!(!SidecarError::InvalidResponse(s()).is_application());
}

#[test]
fn a_copy_of_a_failure_says_the_same() {
    let all = vec![
        SidecarError::NotFound("a".to_string()),
        SidecarError::SpawnError("b".to_string()),
        SidecarError::IoError("c".to_string()),
        SidecarError::JsonError("d".to_string()),
        SidecarError::Timeout("e".to_string()),
        SidecarError::ProcessExit(-7),
        SidecarError::InvalidResponse("f".to_string()),
        SidecarError::SidecarError("g".to_string()),
    ];
    for error in all {
        assert_eq!(error.clone().to_string(), error.to_string());
    }
}
