use scx_synse::helper_client::{decode_error, eof_error, spawn_error, HelperClient, HelperError, SpawnFailure};

#[test]
fn pkexec_invokes_helper_by_absolute_path() {
    // The helper installs to libexecdir (e.g. /usr/libexec), which is not
    // on $PATH. pkexec can only run it when given an absolute path.
    let client = HelperClient::<()>::pkexec(None);
    assert_eq!(client.program(), "pkexec");
    assert_eq!(client.args().len(), 1, "expected a single helper-path argument");
    assert!(
        client.args()[0].starts_with('/'),
        "helper must be invoked by absolute path; got {:?}",
        client.args()[0],
    );
}

#[test]
fn client_keeps_one_child_until_the_session_ends() {
    let mut client: HelperClient<u32> =
        HelperClient::with_command("/bin/helper", &["-v".to_string(), "x".to_string()]);
    assert_eq!(client.program(), "/bin/helper");
    assert_eq!(client.args(), &["-v".to_string(), "x".to_string()]);
    assert!(client.needs_spawn());
    assert_eq!(client.child(), None);
    client.attach(41);
    assert!(!client.needs_spawn());
    if let Some(c) = client.child_mut() {
        *c += 1;
    }
    assert_eq!(client.child(), Some(&42));
    assert!(!client.needs_spawn());
    let err = client.end_session(Some(1), "boom".to_string());
    assert!(matches!(err, HelperError::Crashed(ref s) if s == "boom"));
    assert!(client.needs_spawn());
    assert_eq!(client.program(), "/bin/helper");
}

#[test]
fn exit_126_or_127_means_authorization_was_canceled() {
    assert!(matches!(eof_error(Some(126), "x".into()), HelperError::AuthCanceled));
    assert!(matches!(eof_error(Some(127), "x".into()), HelperError::AuthCanceled));
    assert!(matches!(eof_error(Some(125), "err".into()), HelperError::Crashed(ref s) if s == "err"));
    assert!(matches!(eof_error(None, "".into()), HelperError::Crashed(ref s) if s.is_empty()));
}

#[test]
fn spawn_failures_name_the_missing_program() {
    match spawn_error("pkexec", SpawnFailure::NotFound) {
        HelperError::Crashed(s) => assert_eq!(s, "pkexec not found in PATH"),
        other => panic!("unexpected {other:?}"),
    }
    let io = std::io::Error::new(std::io::ErrorKind::PermissionDenied, "nope");
    match spawn_error("pkexec", SpawnFailure::Other(io)) {
        HelperError::Io(e) => assert_eq!(e.kind(), std::io::ErrorKind::PermissionDenied),
        other => panic!("unexpected {other:?}"),
    }
}

#[test]
fn undecodable_answers_are_protocol_errors() {
    match decode_error("bad tag") {
        HelperError::Protocol(s) => assert_eq!(s, "decode: bad tag"),
        other => panic!("unexpected {other:?}"),
    }
}

#[test]
fn pkexec_takes_the_helper_path_fixed_at_build_time() {
    let client = HelperClient::<()>::pkexec(Some("/opt/libexec/scx-synse-helper"));
    assert_eq!(client.program(), "pkexec");
    assert_eq!(client.args(), &["/opt/libexec/scx-synse-helper".to_string()]);
    let default = HelperClient::<()>::pkexec(None);
    assert_eq!(default.args(), &["/usr/libexec/scx-synse-helper".to_string()]);
}
