use base64::engine::general_purpose::STANDARD;
use base64::Engine;
use onepassword_sdk_unofficial::client::{read_answer, read_client_id, Invocation, Progress};
use onepassword_sdk_unofficial::error::Error;
use onepassword_sdk_unofficial::json::{duplicates, text_list};
use onepassword_sdk_unofficial::operation::{AnswerReader, ListAnswer, Operation, Step};
use onepassword_sdk_unofficial::platform::{Host, LibraryPath, Platform};
use onepassword_sdk_unofficial::transport::{DesktopTransport, Reply};
use onepassword_sdk_unofficial::{Client, ClientBuilder, DesktopAuth};
use serde_json::Value;

fn object(members: Vec<(&str, Value)>) -> Value {
    let mut map = serde_json::Map::new();
    for (key, value) in members {
        map.insert(key.to_owned(), value);
    }
    Value::Object(map)
}

fn text(text: &str) -> Value {
    Value::from(text)
}

fn parsed(json: &str) -> Value {
    serde_json::from_str(json).unwrap()
}

/// The reply that reports success with the payload.
fn answered(payload: &[u8]) -> Reply {
    let response = object(vec![
        ("success", Value::Bool(true)),
        ("payload", Value::from(STANDARD.encode(payload))),
    ]);
    Reply { code: 0, output: Some(serde_json::to_vec(&response).unwrap()) }
}

/// The reply that reports a failure with the text.
fn failed(error: &str) -> Reply {
    let response = object(vec![
        ("success", Value::Bool(false)),
        ("payload", Value::from(STANDARD.encode(error))),
    ]);
    Reply { code: 0, output: Some(serde_json::to_vec(&response).unwrap()) }
}

fn expired() -> Reply {
    failed("DesktopSessionExpired")
}

/// The kind, the account and the payload of a message.
fn opened(message: &[u8]) -> (String, String, Value) {
    let document: Value = serde_json::from_slice(message).unwrap();
    let payload = STANDARD.decode(document["payload"].as_str().unwrap()).unwrap();
    (
        document["kind"].as_str().unwrap().to_owned(),
        document["account_name"].as_str().unwrap().to_owned(),
        serde_json::from_slice(&payload).unwrap(),
    )
}

fn invocation_of(message: &[u8]) -> (u64, String, Value) {
    let (kind, account, payload) = opened(message);
    assert_eq!(kind, "invoke");
    assert_eq!(account, "my.1password.com");
    let invocation = &payload["invocation"];
    assert_eq!(invocation.as_object().unwrap().len(), 2);
    (
        invocation["clientId"].as_u64().unwrap(),
        invocation["parameters"]["name"].as_str().unwrap().to_owned(),
        invocation["parameters"]["parameters"].clone(),
    )
}

fn host(os: &str) -> Host {
    Host { os: os.to_owned(), architecture: "x86_64".to_owned() }
}

fn builder() -> ClientBuilder {
    Client::builder(DesktopAuth::new("my.1password.com").unwrap())
}

fn client() -> Client {
    let Ok((connecting, _)) = builder().build(host("linux"), true) else {
        panic!("expected a connection")
    };
    let Ok(initializing) = connecting.loaded(DesktopTransport { platform: Platform::Linux }) else {
        panic!("expected a message")
    };
    let Ok(client) = initializing.finish(answered(b"7")) else { panic!("expected a client") };
    client
}

fn message<T>(result: Result<T, Error>) -> String {
    match result {
        Ok(_) => panic!("expected an error"),
        Err(error) => error.to_string(),
    }
}

fn begun<R: AnswerReader>(result: Result<Operation<R>, Error>) -> Operation<R> {
    match result {
        Ok(operation) => operation,
        Err(error) => panic!("{}", error.to_string()),
    }
}

fn done<R: AnswerReader>(step: Step<R>) -> Result<R::Output, Error> {
    match step {
        Step::Done(result) => result,
        Step::Send(_) => panic!("expected the end"),
    }
}

fn sent<R: AnswerReader>(step: Step<R>) -> Operation<R> {
    match step {
        Step::Send(operation) => operation,
        Step::Done(_) => panic!("expected another message"),
    }
}

fn next(progress: Progress) -> Invocation {
    match progress {
        Progress::Send(invocation) => invocation,
        Progress::Done(_) => panic!("expected another message"),
    }
}

fn result(progress: Progress) -> Result<Value, Error> {
    match progress {
        Progress::Done(result) => result,
        Progress::Send(_) => panic!("expected the end"),
    }
}

#[test]
fn builders_take_the_last_name_and_version() {
    let Ok((connecting, probing)) = builder()
        .integration_name("first")
        .integration_version("1")
        .integration_name("my-rust-app")
        .build(host("macos"), false)
    else {
        panic!("expected a connection")
    };
    assert!(matches!(probing.path(), LibraryPath::Absolute(_)));
    let Ok(initializing) = connecting.loaded(DesktopTransport { platform: Platform::Macos }) else {
        panic!("expected a message")
    };
    let (kind, account, payload) = opened(initializing.message());
    assert_eq!(kind, "init_client");
    assert_eq!(account, "my.1password.com");
    assert_eq!(
        payload,
        parsed(
            r#"{
                "serviceAccountToken": "",
                "programmingLanguage": "Rust",
                "sdkVersion": "0040102",
                "integrationName": "my-rust-app",
                "integrationVersion": "1",
                "requestLibraryName": "onepassword-sdk-unofficial",
                "requestLibraryVersion": "0.1.0",
                "os": "darwin",
                "osVersion": "0.0.0",
                "architecture": "x86_64",
                "account_name": "my.1password.com"
            }"#
        )
    );
}

#[test]
fn builders_name_this_library_by_default() {
    let Ok((connecting, _)) = builder().build(host("linux"), true) else {
        panic!("expected a connection")
    };
    let Ok(initializing) = connecting.loaded(DesktopTransport { platform: Platform::Linux }) else {
        panic!("expected a message")
    };
    let (_, _, payload) = opened(initializing.message());
    assert_eq!(payload["integrationName"], "onepassword-sdk-unofficial");
    assert_eq!(payload["integrationVersion"], "0.1.0");
    assert_eq!(payload["os"], "linux");
}

#[test]
fn builders_check_the_name_then_the_version_then_the_platform() {
    let invalid = builder().integration_name("").integration_version("\n");
    assert_eq!(
        message(invalid.build(host("windows"), true)),
        "invalid argument: invalid integration name"
    );
    assert_eq!(
        message(builder().integration_version("\n").build(host("windows"), true)),
        "invalid argument: invalid integration version"
    );
    assert!(matches!(
        builder().build(host("windows"), true),
        Err(Error::UnsupportedPlatform(_))
    ));
}

#[test]
fn clients_need_a_number() {
    let initializing = || {
        let Ok((connecting, _)) = builder().build(host("linux"), true) else {
            panic!("expected a connection")
        };
        let Ok(initializing) = connecting.loaded(DesktopTransport { platform: Platform::Linux })
        else {
            panic!("expected a message")
        };
        initializing
    };
    assert!(matches!(
        initializing().finish(failed("Denied authorization")),
        Err(Error::AuthorizationDenied)
    ));
    assert!(matches!(initializing().finish(expired()), Err(Error::DesktopSessionExpired)));
    assert!(matches!(initializing().finish(answered(b"\"7\"")), Err(Error::Protocol(_))));
    assert!(matches!(initializing().finish(answered(b"-7")), Err(Error::Protocol(_))));
    assert!(matches!(initializing().finish(answered(b"7.0")), Err(Error::Protocol(_))));
    let client = initializing().initialized(9);
    assert_eq!(opened(&client.release().unwrap()).2, Value::from(9));
}

#[test]
fn clients_are_released_by_their_number() {
    let (kind, account, payload) = opened(&client().release().unwrap());
    assert_eq!(kind, "release_client");
    assert_eq!(account, "my.1password.com");
    assert_eq!(payload, Value::from(7));
}

#[test]
fn answers_are_read_as_json() {
    assert_eq!(read_client_id(Ok(b" 42 ".to_vec())).unwrap(), 42);
    assert!(matches!(
        read_client_id(Err(Error::AuthorizationDenied)),
        Err(Error::AuthorizationDenied)
    ));
    assert_eq!(read_answer(Ok(b"[1,null]".to_vec())).unwrap(), parsed("[1,null]"));
    assert_eq!(
        message(read_answer(Ok(b"".to_vec()))),
        "1Password SDK protocol error: EOF while parsing a value at line 1 column 0"
    );
}

#[test]
fn an_answered_request_ends_at_once() {
    let mut client = client();
    let operation = begun(client.items().get("v", "i"));
    let item = done(operation.resume(&mut client, answered(br#"{"id":"i"}"#))).unwrap();
    assert_eq!(item, parsed(r#"{"id":"i"}"#));
    let operation = begun(client.items().get("v", "i"));
    assert!(matches!(
        done(operation.resume(&mut client, failed("Denied authorization"))),
        Err(Error::AuthorizationDenied)
    ));
    let operation = begun(client.items().get("v", "i"));
    assert!(matches!(
        done(operation.resume(&mut client, Reply { code: -5, output: None })),
        Err(Error::Unavailable(_))
    ));
}

#[test]
fn an_expired_session_is_reopened_and_the_request_retried() {
    let mut client = client();
    let operation = begun(client.items().get("v", "i"));
    assert_eq!(invocation_of(operation.message()).0, 7);

    let operation = sent(operation.resume(&mut client, expired()));
    let (kind, _, payload) = opened(operation.message());
    assert_eq!(kind, "init_client");
    assert_eq!(payload["integrationName"], "onepassword-sdk-unofficial");

    let operation = sent(operation.resume(&mut client, answered(b"8")));
    assert_eq!(
        invocation_of(operation.message()),
        (
            8,
            "ItemsGet".to_owned(),
            object(vec![("vault_id", text("v")), ("item_id", text("i"))])
        )
    );

    let item = done(operation.resume(&mut client, answered(b"{}"))).unwrap();
    assert_eq!(item, object(vec![]));
    assert_eq!(opened(&client.release().unwrap()).2, Value::from(8));
}

#[test]
fn a_session_is_reopened_only_once() {
    let mut client = client();
    let operation = begun(client.items().get("v", "i"));
    let operation = sent(operation.resume(&mut client, expired()));
    let operation = sent(operation.resume(&mut client, answered(b"8")));
    assert!(matches!(
        done(operation.resume(&mut client, expired())),
        Err(Error::DesktopSessionExpired)
    ));
    assert_eq!(opened(&client.release().unwrap()).2, Value::from(8));
}

#[test]
fn a_session_that_cannot_be_reopened_ends_the_request() {
    let mut client = client();
    for reply in [expired(), failed("other"), answered(b"{}")] {
        let operation = begun(client.items().get("v", "i"));
        let operation = sent(operation.resume(&mut client, expired()));
        assert!(done(operation.resume(&mut client, reply)).is_err());
        assert_eq!(opened(&client.release().unwrap()).2, Value::from(7));
    }
}

#[test]
fn invocations_go_on_with_answers_too() {
    let mut client = client();
    let Ok(invocation) = client.invoke("Name", Value::Null) else { panic!("expected a message") };
    assert_eq!(
        invocation_of(invocation.message()),
        (7, "Name".to_owned(), Value::Null)
    );
    let invocation = next(client.answered(invocation, Err(Error::DesktopSessionExpired)));
    let invocation = next(client.reinitialized(invocation, 11));
    assert_eq!(invocation_of(invocation.message()).0, 11);
    assert_eq!(
        result(client.answered(invocation, Ok(b"true".to_vec()))).unwrap(),
        Value::Bool(true)
    );
    let Ok(invocation) = client.invoke("Name", Value::Null) else { panic!("expected a message") };
    assert_eq!(
        result(client.resume(invocation, answered(b"5"))).unwrap(),
        Value::from(5)
    );
}

#[test]
fn secrets_are_resolved_in_order() {
    let mut client = client();
    let operation =
        begun(client.secrets().resolve_all(&["op://v/i/b", "op://v/i/a", "op://v/i/b"]));
    assert_eq!(
        invocation_of(operation.message()),
        (
            7,
            "SecretsResolveAll".to_owned(),
            parsed(r#"{"secret_references": ["op://v/i/b", "op://v/i/a", "op://v/i/b"]}"#)
        )
    );
    let answer = br#"{"individualResponses": {
        "op://v/i/a": {"content": {"secret": "alpha"}},
        "op://v/i/b": {"content": {"secret": "beta"}, "error": null}
    }}"#;
    assert_eq!(
        done(operation.resume(&mut client, answered(answer))).unwrap(),
        vec!["beta", "alpha", "beta"]
    );
}

#[test]
fn one_secret_is_resolved_as_a_batch_of_one() {
    let mut client = client();
    let operation = begun(client.secrets().resolve("op://v/i/a"));
    assert_eq!(
        invocation_of(operation.message()).2,
        parsed(r#"{"secret_references": ["op://v/i/a"]}"#)
    );
    let answer = br#"{"individualResponses": {"op://v/i/a": {"content": {"secret": "alpha"}}}}"#;
    assert_eq!(done(operation.resume(&mut client, answered(answer))).unwrap(), "alpha");

    let operation = begun(client.secrets().resolve("op://v/i/a"));
    let answer = br#"{"individualResponses": {"op://v/i/a": {"error": {"message": "no"}}}}"#;
    assert!(matches!(
        done(operation.resume(&mut client, answered(answer))),
        Err(Error::SecretResolutionFailed)
    ));
    assert!(client.secrets().resolve("v/i/a").is_err());
    assert!(client.secrets().resolve_all(&[]).is_err());
}

#[test]
fn lists_are_arrays() {
    let mut client = client();
    let operation = begun(client.vaults().list());
    assert_eq!(
        invocation_of(operation.message()),
        (7, "VaultsList".to_owned(), parsed(r#"{"params": null}"#))
    );
    assert_eq!(
        done(operation.resume(&mut client, answered(br#"[{"id":"v"},2]"#))).unwrap(),
        vec![object(vec![("id", text("v"))]), Value::from(2)]
    );
    let operation = begun(client.vaults().list());
    assert_eq!(
        message(done(operation.resume(&mut client, answered(b"{}")))),
        "1Password SDK protocol error: vaults list response was not an array"
    );
    let operation = begun(client.items().list("v"));
    assert_eq!(
        invocation_of(operation.message()),
        (7, "ItemsList".to_owned(), parsed(r#"{"vault_id": "v", "filters": []}"#))
    );
    assert_eq!(
        message(done(operation.resume(&mut client, answered(b"null")))),
        "1Password SDK protocol error: items list response was not an array"
    );
    let reader = ListAnswer { otherwise: "none" };
    assert_eq!(reader.read(parsed("[1]")).unwrap(), vec![Value::from(1)]);
}

#[test]
fn items_are_written_as_they_are() {
    let mut client = client();
    let item = parsed(r#"{"title": "t", "count": 1.5, "tags": ["a"]}"#);
    let operation = begun(client.items().create(item.clone()));
    assert_eq!(
        invocation_of(operation.message()),
        (7, "ItemsCreate".to_owned(), object(vec![("params", item.clone())]))
    );
    assert_eq!(
        done(operation.resume(&mut client, answered(br#"{"id":"n"}"#))).unwrap(),
        parsed(r#"{"id":"n"}"#)
    );
    let operation = begun(client.items().put(item.clone()));
    assert_eq!(
        invocation_of(operation.message()),
        (7, "ItemsPut".to_owned(), object(vec![("item", item.clone())]))
    );
    let operation = begun(client.items().create_all("v", vec![item.clone(), item.clone()]));
    assert_eq!(
        invocation_of(operation.message()),
        (
            7,
            "ItemsCreateAll".to_owned(),
            object(vec![
                ("vault_id", text("v")),
                ("params", Value::Array(vec![item.clone(), item]))
            ])
        )
    );
    assert_eq!(
        message(client.items().create(Value::Null)),
        "invalid argument: item create params must be a JSON object"
    );
    assert_eq!(
        message(client.items().put(Value::Null)),
        "invalid argument: item must be a JSON object"
    );
    assert_eq!(
        message(client.items().create_all("v", vec![])),
        "invalid argument: item create batch must contain between 1 and 100 items"
    );
    assert_eq!(
        message(client.items().create_all("", vec![])),
        "invalid argument: vault ID is empty or too large"
    );
}

#[test]
fn items_are_named_by_vault_and_identifier() {
    let mut client = client();
    let one = parsed(r#"{"vault_id": "v", "item_id": "i"}"#);
    let several = parsed(r#"{"vault_id": "v", "item_ids": ["i", "j"]}"#);
    let operation = begun(client.items().delete("v", "i"));
    assert_eq!(invocation_of(operation.message()), (7, "ItemsDelete".to_owned(), one.clone()));
    assert!(done(operation.resume(&mut client, answered(b"[]"))).is_ok());
    let operation = begun(client.items().archive("v", "i"));
    assert_eq!(invocation_of(operation.message()), (7, "ItemsArchive".to_owned(), one));
    assert!(matches!(
        done(operation.resume(&mut client, failed("no"))),
        Err(Error::Unavailable(_))
    ));
    let operation = begun(client.items().get_all("v", &["i", "j"]));
    assert_eq!(
        invocation_of(operation.message()),
        (7, "ItemsGetAll".to_owned(), several.clone())
    );
    let operation = begun(client.items().delete_all("v", &["i", "j"]));
    assert_eq!(invocation_of(operation.message()), (7, "ItemsDeleteAll".to_owned(), several));
    let vault = "invalid argument: vault ID is empty or too large";
    let item = "invalid argument: item ID is empty or too large";
    assert_eq!(message(client.items().get("", "")), vault);
    assert_eq!(message(client.items().get("v", "")), item);
    assert_eq!(message(client.items().delete("v", "")), item);
    assert_eq!(message(client.items().archive("", "i")), vault);
    assert_eq!(message(client.items().get_all("v", &["i", ""])), item);
    assert_eq!(message(client.items().delete_all("", &[])), vault);
    assert_eq!(message(client.items().list("")), vault);
}

#[test]
fn values_are_copied_one_for_one() {
    let values = vec![parsed(r#"{"a": [1, -2, 2.5]}"#), Value::Null];
    assert_eq!(duplicates(&values), values);
    assert_eq!(text_list(&vec!["b".to_owned(), "a".to_owned()]), parsed(r#"["b", "a"]"#));
}
