use base64::engine::general_purpose::STANDARD;
use base64::Engine;
use onepassword_sdk_unofficial::error::Error;
use onepassword_sdk_unofficial::loader::{LoadStep, OpenResult, Probing};
use onepassword_sdk_unofficial::platform::{candidate_library_paths, LibraryPath, Platform};
use onepassword_sdk_unofficial::transport::{
    classify_return_code, classify_sdk_error, decode_response_payload, encode_payload,
    read_response, DesktopTransport, Reply,
};
use serde_json::Value;

fn object(members: Vec<(&str, Value)>) -> Value {
    let mut map = serde_json::Map::new();
    for (key, value) in members {
        map.insert(key.to_owned(), value);
    }
    Value::Object(map)
}

fn byte_list(bytes: &[u8]) -> Value {
    Value::Array(bytes.iter().copied().map(Value::from).collect())
}

fn absolute(path: &LibraryPath) -> &str {
    match path {
        LibraryPath::Absolute(path) => path,
        LibraryPath::UnderHome(_) => panic!("expected an absolute path"),
    }
}

fn reply(response: &Value) -> Reply {
    Reply { code: 0, output: Some(serde_json::to_vec(response).unwrap()) }
}

fn message<T>(result: Result<T, Error>) -> String {
    match result {
        Ok(_) => panic!("expected an error"),
        Err(error) => error.to_string(),
    }
}

fn searching(os: &str, has_home: bool) -> Probing {
    match DesktopTransport::load(os, has_home) {
        Ok(probing) => probing,
        Err(error) => panic!("{}", error.to_string()),
    }
}

fn failure(step: LoadStep) -> (String, bool) {
    match step {
        LoadStep::Fail { error, close } => (error.to_string(), close),
        _ => panic!("expected a failure"),
    }
}

#[test]
fn payload_decoder_accepts_byte_array_and_base64_shapes() {
    let bytes = byte_list(&[123, 34, 111, 107, 34, 58, 116, 114, 117, 101, 125]);
    assert_eq!(
        decode_response_payload(Some(&bytes)).unwrap(),
        br#"{"ok":true}"#
    );

    let encoded = Value::from(STANDARD.encode(br#"{"ok":true}"#));
    assert_eq!(
        decode_response_payload(Some(&encoded)).unwrap(),
        br#"{"ok":true}"#
    );
    assert!(decode_response_payload(Some(&Value::Array(vec![Value::from(256)]))).is_err());
    assert!(
        decode_response_payload(Some(&object(vec![("unexpected", Value::Bool(true))]))).is_err()
    );
}

#[test]
fn payload_errors_say_what_is_wrong() {
    assert_eq!(
        message(decode_response_payload(None)),
        "1Password SDK protocol error: SDK response is missing payload"
    );
    for element in [Value::from(256), Value::from(-1), Value::from(1.0), Value::from("1")] {
        assert_eq!(
            message(decode_response_payload(Some(&Value::Array(vec![Value::from(0), element])))),
            "1Password SDK protocol error: SDK response payload contains a non-byte value"
        );
    }
    assert_eq!(
        message(decode_response_payload(Some(&Value::Null))),
        "1Password SDK protocol error: SDK response payload has an unsupported shape"
    );
    assert_eq!(
        message(decode_response_payload(Some(&Value::from("a!==")))),
        "1Password SDK protocol error: Invalid symbol 33, offset 1."
    );
}

#[test]
fn pbt_payload_decoder_round_trips_supported_shapes() -> noprop::TestResult {
    let seed = noprop::seed_from_env_or_time("OPSDK_PAYLOAD_NOPROP_SEED")?;
    let mut runner = noprop::Runner::new(seed);

    runner.run(512, |ctx| {
        let len = noprop::sample_with_boundaries(
            ctx,
            &[0usize, 1, 255, 1024],
            noprop::Ratio::one_nth(2),
            |ctx| noprop::sample_usize_in(ctx, 0..=1024),
        );
        let payload = noprop::sample_bytes_vec(ctx, len);
        let byte_array = Value::Array(payload.iter().copied().map(Value::from).collect());
        let base64_payload = Value::from(STANDARD.encode(&payload));

        assert_eq!(decode_response_payload(Some(&byte_array)).unwrap(), payload);
        assert_eq!(decode_response_payload(Some(&base64_payload)).unwrap(), payload);
        assert_eq!(Value::from(encode_payload(&payload)), base64_payload);
        Ok(())
    })?;

    Ok(())
}

#[test]
fn pbt_upstream_error_classification_never_echoes_input() -> noprop::TestResult {
    let seed = noprop::seed_from_env_or_time("OPSDK_ERROR_NOPROP_SEED")?;
    let mut runner = noprop::Runner::new(seed);

    runner.run(512, |ctx| {
        let len = noprop::sample_usize_in(ctx, 0..=128);
        let generated = noprop::sample_ascii_printable_string(ctx, len);
        let upstream = format!("sensitive-canary::{generated}");
        let rendered = classify_sdk_error(&upstream).to_string();
        assert!(!rendered.contains(&upstream));
        assert!(!rendered.contains("sensitive-canary::"));
        Ok(())
    })?;

    Ok(())
}

#[test]
fn upstream_errors_are_sanitized() {
    assert!(matches!(
        classify_sdk_error("Denied authorization for SDK client private detail"),
        Error::AuthorizationDenied
    ));
    let error = classify_sdk_error("secret upstream detail");
    assert!(!error.to_string().contains("secret upstream detail"));
}

#[test]
fn expired_sessions_are_recognized() {
    for text in ["x DesktopSessionExpired", "the desktop session expired!"] {
        assert!(matches!(classify_sdk_error(text), Error::DesktopSessionExpired));
    }
    assert!(matches!(
        classify_sdk_error("DesktopSessionExpired: Denied authorization"),
        Error::AuthorizationDenied
    ));
    assert!(matches!(classify_sdk_error("desktopsessionexpired"), Error::Unavailable(_)));
    assert_eq!(
        classify_sdk_error("").to_string(),
        "1Password desktop SDK is unavailable: desktop SDK request failed"
    );
}

#[test]
fn library_paths_match_official_sdk_layouts() {
    let paths = candidate_library_paths(Platform::Macos, true);
    assert!(paths.iter().any(|path| {
        matches!(path, LibraryPath::Absolute(path)
            if path == "/Applications/1Password.app/Contents/Frameworks/libop_sdk_ipc_client.dylib")
    }));
    let paths = candidate_library_paths(Platform::Linux, true);
    assert_eq!(paths.len(), 3);
    assert_eq!(absolute(&paths[0]), "/usr/bin/1password/libop_sdk_ipc_client.so");
    assert_eq!(absolute(&paths[1]), "/opt/1Password/libop_sdk_ipc_client.so");
    assert_eq!(absolute(&paths[2]), "/snap/bin/1password/libop_sdk_ipc_client.so");
}

#[test]
fn a_home_directory_adds_a_place_on_macos() {
    assert_eq!(candidate_library_paths(Platform::Macos, false).len(), 1);
    let paths = candidate_library_paths(Platform::Macos, true);
    assert_eq!(paths.len(), 2);
    assert!(matches!(&paths[1], LibraryPath::UnderHome(path)
        if path == "Applications/1Password.app/Contents/Frameworks/libop_sdk_ipc_client.dylib"));
    assert_eq!(candidate_library_paths(Platform::Linux, false).len(), 3);
}

#[test]
fn return_codes_do_not_expose_internal_details() {
    assert!(classify_return_code(Platform::Macos, -3)
        .to_string()
        .contains("channel is closed"));
    assert!(classify_return_code(Platform::Linux, -2)
        .to_string()
        .contains("channel is closed"));
    assert!(!classify_return_code(Platform::Linux, -999).to_string().contains("-999"));
    assert!(!classify_return_code(Platform::Macos, -999).to_string().contains("-999"));
}

#[test]
fn return_codes_differ_between_the_platforms() {
    let dropped = "1Password desktop SDK is unavailable: \
        connection was unexpectedly dropped by the desktop app";
    let failed = "1Password desktop SDK is unavailable: desktop SDK IPC call failed";
    assert_eq!(classify_return_code(Platform::Macos, -7).to_string(), dropped);
    assert_eq!(classify_return_code(Platform::Linux, -5).to_string(), dropped);
    assert_eq!(classify_return_code(Platform::Macos, -2).to_string(), failed);
    assert_eq!(classify_return_code(Platform::Linux, -7).to_string(), failed);
}

#[test]
fn messages_carry_kind_account_and_payload() {
    let transport = DesktopTransport { platform: Platform::Linux };
    let message = transport.call("acc", "invoke", b"{}").unwrap();
    assert_eq!(
        String::from_utf8(message).unwrap(),
        r#"{"account_name":"acc","kind":"invoke","payload":"e30="}"#
    );
}

#[test]
fn successful_responses_give_their_payload() {
    let transport = DesktopTransport { platform: Platform::Linux };
    let response =
        object(vec![("success", Value::Bool(true)), ("payload", Value::from("aGk="))]);
    assert_eq!(transport.receive(reply(&response)).unwrap(), b"hi");
    assert_eq!(read_response(&response).unwrap(), b"hi");
}

#[test]
fn failed_responses_give_the_error_that_they_report() {
    let transport = DesktopTransport { platform: Platform::Linux };
    for flag in [Value::Bool(false), Value::Null, Value::from("true"), Value::from(1)] {
        let response = object(vec![
            ("success", flag),
            ("payload", byte_list(b"Denied authorization for x")),
        ]);
        assert!(matches!(
            transport.receive(reply(&response)),
            Err(Error::AuthorizationDenied)
        ));
    }
    let mut text = b"desktop session expired \xff".to_vec();
    text.push(b'!');
    let response = object(vec![("payload", byte_list(&text))]);
    assert!(matches!(read_response(&response), Err(Error::DesktopSessionExpired)));
    assert_eq!(
        message(read_response(&object(vec![("success", Value::Bool(true))]))),
        "1Password SDK protocol error: SDK response is missing payload"
    );
}

#[test]
fn replies_without_an_answer_are_errors() {
    let transport = DesktopTransport { platform: Platform::Macos };
    assert_eq!(
        message(transport.receive(Reply { code: -3, output: Some(b"{}".to_vec()) })),
        "1Password desktop SDK is unavailable: desktop app connection channel is closed"
    );
    assert_eq!(
        message(transport.receive(Reply { code: 0, output: None })),
        "1Password desktop SDK is unavailable: SDK IPC returned a null response"
    );
    assert_eq!(
        message(transport.receive(Reply { code: 0, output: Some(b"{".to_vec()) })),
        "1Password SDK protocol error: EOF while parsing an object at line 1 column 1"
    );
}

#[test]
fn the_first_file_wins() {
    let step = searching("linux", false).probed(false);
    let LoadStep::Probe(second) = step else { panic!("expected another place") };
    assert_eq!(absolute(second.path()), "/opt/1Password/libop_sdk_ipc_client.so");
    let LoadStep::Open(opening) = second.probed(true) else { panic!("expected a file") };
    assert_eq!(absolute(opening.path()), "/opt/1Password/libop_sdk_ipc_client.so");
    let LoadStep::Resolve(resolving) = opening.opened(OpenResult::Opened) else {
        panic!("expected an open library")
    };
    assert!(matches!(resolving.resolved(true, true), LoadStep::Ready(transport)
        if transport.platform == Platform::Linux));
}

#[test]
fn loading_fails_where_a_step_fails() {
    let found = || match searching("macos", true).probed(true) {
        LoadStep::Open(opening) => opening,
        _ => panic!("expected a file"),
    };
    let open = || match found().opened(OpenResult::Opened) {
        LoadStep::Resolve(resolving) => resolving,
        _ => panic!("expected an open library"),
    };
    assert_eq!(
        failure(searching("macos", false).probed(false)),
        (
            "1Password desktop SDK is unavailable: SDK IPC library was not found; \
             install the 1Password desktop app"
                .to_owned(),
            false
        )
    );
    assert_eq!(
        failure(found().opened(OpenResult::Refused)),
        (
            "1Password desktop SDK is unavailable: failed to open the 1Password SDK IPC library"
                .to_owned(),
            false
        )
    );
    assert_eq!(
        failure(found().opened(OpenResult::BadPath("nul byte".to_owned()))),
        ("1Password desktop SDK is unavailable: nul byte".to_owned(), false)
    );
    for (send, free) in [(false, true), (true, false), (false, false)] {
        assert_eq!(
            failure(open().resolved(send, free)),
            (
                "1Password desktop SDK is unavailable: \
                 1Password SDK IPC library is missing required symbols"
                    .to_owned(),
                true
            )
        );
    }
    assert!(DesktopTransport::load("windows", true).is_err());
}
