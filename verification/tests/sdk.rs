use onepassword_sdk_unofficial::error::{protocol_error, Error};
use onepassword_sdk_unofficial::platform::{platform_for, sdk_os_name, Platform};
use onepassword_sdk_unofficial::secrets::{extract_secret, extract_secrets, first_secret};
use onepassword_sdk_unofficial::text::{byte_len, contains_control, is_control, joined};
use onepassword_sdk_unofficial::validate::{
    add_batch_size, validate_account, validate_identifier, validate_item_batch, validate_item_ids,
    validate_item_json, validate_item_size, validate_metadata, validate_references,
};
use onepassword_sdk_unofficial::DesktopAuth;
use serde_json::Value;

fn object(members: Vec<(&str, Value)>) -> Value {
    let mut map = serde_json::Map::new();
    for (key, value) in members {
        map.insert(key.to_owned(), value);
    }
    Value::Object(map)
}

fn secret(text: &str) -> Value {
    object(vec![("content", object(vec![("secret", Value::from(text))]))])
}

fn answer(responses: Vec<(&str, Value)>) -> Value {
    object(vec![("individualResponses", object(responses))])
}

fn message<T>(result: Result<T, Error>) -> String {
    match result {
        Ok(_) => panic!("expected an error"),
        Err(error) => error.to_string(),
    }
}

#[test]
fn sdk_os_name_matches_official_desktop_sdk_values() {
    assert_eq!(sdk_os_name("macos"), "darwin");
    assert_eq!(sdk_os_name("linux"), "linux");
    assert_eq!(sdk_os_name("windows"), "windows");
}

#[test]
fn other_systems_keep_their_name() {
    assert_eq!(sdk_os_name("freebsd"), "freebsd");
    assert_eq!(sdk_os_name(""), "");
}

#[test]
fn only_two_systems_have_a_transport() {
    assert!(matches!(platform_for("macos"), Ok(Platform::Macos)));
    assert!(matches!(platform_for("linux"), Ok(Platform::Linux)));
    assert!(matches!(platform_for("windows"), Err(Error::UnsupportedPlatform(_))));
    assert_eq!(
        message(platform_for("windows")),
        "unsupported platform: desktop transport proof is currently implemented for macOS and Linux"
    );
}

#[test]
fn desktop_auth_rejects_invalid_accounts() {
    assert!(DesktopAuth::new("").is_err());
    assert!(DesktopAuth::new("account\nname").is_err());
    assert_eq!(
        DesktopAuth::new("my.1password.com").unwrap().account(),
        "my.1password.com"
    );
}

#[test]
fn account_errors_say_what_is_wrong() {
    assert_eq!(message(validate_account("")), "invalid argument: account must not be empty");
    assert_eq!(
        message(validate_account(&"a".repeat(4097))),
        "invalid argument: account exceeds 4096 bytes"
    );
    assert_eq!(
        message(validate_account("a\tb")),
        "invalid argument: account must not contain control characters"
    );
    assert!(validate_account(&"a".repeat(4096)).is_ok());
    assert!(validate_account(&"\u{e9}".repeat(2048)).is_ok());
    assert!(validate_account(&"\u{e9}".repeat(2049)).is_err());
}

#[test]
fn copies_of_an_authentication_are_equal_to_it() {
    let auth = DesktopAuth::new("team.1password.com").unwrap();
    let copy = auth.clone();
    assert_eq!(auth, copy);
    assert_eq!(copy.account(), "team.1password.com");
}

#[test]
fn metadata_is_bounded() {
    assert!(validate_metadata("integration name", "my-rust-app").is_ok());
    assert!(validate_metadata("integration name", &"n".repeat(1024)).is_ok());
    for value in ["", "a\u{7f}", &"n".repeat(1025)] {
        assert_eq!(
            message(validate_metadata("integration name", value)),
            "invalid argument: invalid integration name"
        );
    }
}

#[test]
fn identifiers_are_bounded() {
    assert!(validate_identifier("vault ID", "v").is_ok());
    assert!(validate_identifier("vault ID", "a\nb").is_ok());
    assert!(validate_identifier("vault ID", &"v".repeat(4096)).is_ok());
    assert_eq!(
        message(validate_identifier("vault ID", "")),
        "invalid argument: vault ID is empty or too large"
    );
    assert!(validate_identifier("vault ID", &"v".repeat(4097)).is_err());
}

#[test]
fn reference_validation_is_bounded() {
    assert!(validate_references(&[]).is_err());
    assert!(validate_references(&["not-a-reference".to_owned()]).is_err());
    assert!(validate_references(&vec!["op://v/i/f".to_owned(); 101]).is_err());
    assert!(validate_references(&["op://v/i/f".to_owned()]).is_ok());
}

#[test]
fn reference_errors_say_what_is_wrong() {
    let padded = |length: usize| format!("op://{}", "x".repeat(length - 5));
    assert_eq!(
        message(validate_references(&[])),
        "invalid argument: references must not be empty"
    );
    assert_eq!(
        message(validate_references(&vec!["op://v/i/f".to_owned(); 101])),
        "invalid argument: references must contain at most 100 entries"
    );
    assert_eq!(
        message(validate_references(&["op://v".to_owned(), "op:/v".to_owned()])),
        "invalid argument: secret references must start with op://"
    );
    assert_eq!(
        message(validate_references(&[padded(4097)])),
        "invalid argument: secret reference exceeds 4096 bytes"
    );
    assert_eq!(
        message(validate_references(&["op://v\u{0}".to_owned()])),
        "invalid argument: secret references must not contain control characters"
    );
    assert!(validate_references(&vec![padded(4096); 32]).is_ok());
    assert_eq!(
        message(validate_references(&vec![padded(4096); 33])),
        "invalid argument: secret references exceed 131072 bytes in total"
    );
    assert!(validate_references(&vec!["op://v".to_owned(); 100]).is_ok());
}

#[test]
fn the_earliest_fault_decides() {
    let references = ["op://v".to_owned(), "op://\n".to_owned(), "none".to_owned()];
    assert_eq!(
        message(validate_references(&references)),
        "invalid argument: secret references must not contain control characters"
    );
}

#[test]
fn extracts_secrets_in_request_order_and_supports_duplicates() {
    let result = answer(vec![("op://v/i/a", secret("alpha")), ("op://v/i/b", secret("beta"))]);
    let refs = vec![
        "op://v/i/b".to_owned(),
        "op://v/i/a".to_owned(),
        "op://v/i/b".to_owned(),
    ];
    assert_eq!(
        extract_secrets(&result, &refs).unwrap(),
        vec!["beta", "alpha", "beta"]
    );
}

#[test]
fn no_references_give_no_secrets() {
    assert!(extract_secrets(&answer(vec![]), &[]).unwrap().is_empty());
    assert!(extract_secrets(&Value::Null, &[]).is_err());
}

#[test]
fn secret_errors_say_what_is_missing() {
    let refs = ["op://v/i/a".to_owned()];
    assert_eq!(
        message(extract_secrets(&object(vec![]), &refs)),
        "1Password SDK protocol error: resolve response is missing individualResponses"
    );
    assert_eq!(
        message(extract_secrets(&object(vec![("individualResponses", Value::Array(vec![]))]), &refs)),
        "1Password SDK protocol error: resolve response is missing individualResponses"
    );
    assert_eq!(
        message(extract_secrets(&answer(vec![]), &refs)),
        "1Password SDK protocol error: resolve response is missing a requested reference"
    );
    for response in [
        Value::Null,
        object(vec![("content", Value::Null)]),
        object(vec![("content", object(vec![("secret", Value::from(1u64))]))]),
        object(vec![("content", Value::Array(vec![Value::from("secret")]))]),
        object(vec![("content/secret", Value::from("flat"))]),
    ] {
        assert_eq!(
            message(extract_secrets(&answer(vec![("op://v/i/a", response)]), &refs)),
            "1Password SDK protocol error: resolve response is missing secret content"
        );
    }
}

#[test]
fn a_null_error_is_no_error() {
    let mut response = secret("alpha");
    response["error"] = Value::Null;
    let responses = object(vec![("op://v/i/a", response)]);
    assert_eq!(extract_secret(&responses, "op://v/i/a").unwrap(), "alpha");
    let mut response = secret("alpha");
    response["error"] = Value::Bool(false);
    let responses = object(vec![("op://v/i/a", response)]);
    assert!(matches!(
        extract_secret(&responses, "op://v/i/a"),
        Err(Error::SecretResolutionFailed)
    ));
}

#[test]
fn the_first_of_the_secrets_is_the_one() {
    assert_eq!(first_secret(vec!["a".to_owned(), "b".to_owned()]).unwrap(), "a");
    assert_eq!(
        message(first_secret(vec![])),
        "1Password SDK protocol error: secret response was empty"
    );
}

#[test]
fn item_write_inputs_are_bounded_and_errors_do_not_echo_values() {
    let invalid = Value::from("sensitive-canary");
    let error = validate_item_json("item", &invalid).unwrap_err();
    assert!(!error.to_string().contains("sensitive-canary"));

    assert!(validate_item_json("item", &object(vec![("title", Value::from("ok"))])).is_ok());
    assert!(validate_item_batch("items", &[]).is_err());
    assert!(validate_item_batch("items", &vec![object(vec![]); 101]).is_err());
    assert!(validate_item_ids(&[]).is_err());
    assert!(validate_item_ids(&["item-1", "item-2"]).is_ok());
    assert!(validate_item_ids(&vec!["item"; 101]).is_err());
}

#[test]
fn refusals_of_batches_do_not_echo_values() {
    let canary = Value::from("sensitive-canary");
    let large = object(vec![("a", Value::from("sensitive-canary".repeat(65536)))]);
    for items in [vec![canary.clone()], vec![large], vec![canary; 101]] {
        assert!(!message(validate_item_batch("items", &items)).contains("sensitive-canary"));
    }
    for reference in ["sensitive-canary", "op://sensitive-canary\n"] {
        let references = [reference.to_owned()];
        assert!(!message(validate_references(&references)).contains("sensitive-canary"));
    }
}

#[test]
fn items_may_have_a_mebibyte_and_no_more() {
    // {"a":"..."} has eight bytes beside those of the text.
    let item = |size: usize| object(vec![("a", Value::from("x".repeat(size - 8)))]);
    assert_eq!(serde_json::to_vec(&item(100)).unwrap().len(), 100);
    assert!(validate_item_json("item", &item(1024 * 1024)).is_ok());
    assert_eq!(
        message(validate_item_json("item", &item(1024 * 1024 + 1))),
        "invalid argument: item exceeds 1048576 bytes"
    );
    assert_eq!(
        message(validate_item_json("item", &Value::Array(vec![]))),
        "invalid argument: item must be a JSON object"
    );
    assert!(validate_item_batch("items", &vec![item(1024 * 1024); 8]).is_ok());
    assert_eq!(
        message(validate_item_batch("items", &vec![item(1024 * 1024); 9])),
        "invalid argument: items exceeds 8388608 bytes"
    );
    assert_eq!(
        message(validate_item_batch("items", &[item(9), Value::Null])),
        "invalid argument: item must be a JSON object"
    );
    assert_eq!(
        message(validate_item_batch("items", &[])),
        "invalid argument: items must contain between 1 and 100 items"
    );
}

#[test]
fn sizes_are_added_up_to_the_bound() {
    assert!(validate_item_size("item", 1048576).is_ok());
    assert!(validate_item_size("item", 1048577).is_err());
    assert!(matches!(add_batch_size("items", 8388600, 8), Ok(8388608)));
    assert!(add_batch_size("items", 8388600, 9).is_err());
    assert!(add_batch_size("items", usize::MAX, usize::MAX).is_err());
}

#[test]
fn item_identifiers_come_back_in_their_order() {
    assert_eq!(validate_item_ids(&["b", "a", "b"]).unwrap(), vec!["b", "a", "b"]);
    assert_eq!(
        message(validate_item_ids(&[])),
        "invalid argument: item batch must contain between 1 and 100 IDs"
    );
    assert_eq!(
        message(validate_item_ids(&["a", ""])),
        "invalid argument: item ID is empty or too large"
    );
}

#[test]
fn reference_errors_do_not_expose_secret_payloads() {
    let result = answer(vec![(
        "op://v/i/a",
        object(vec![(
            "error",
            object(vec![("message", Value::from("sensitive upstream detail"))]),
        )]),
    )]);
    let error = extract_secrets(&result, &["op://v/i/a".to_owned()]).unwrap_err();
    assert_eq!(
        error.to_string(),
        "1Password could not resolve one or more secret references"
    );
    assert!(!error.to_string().contains("sensitive upstream detail"));
}

#[test]
fn errors_are_shown_with_their_message() {
    let shown = [
        (Error::UnsupportedPlatform("m"), "unsupported platform: m"),
        (Error::InvalidArgument("m".to_owned()), "invalid argument: m"),
        (Error::Unavailable("m".to_owned()), "1Password desktop SDK is unavailable: m"),
        (Error::AuthorizationDenied, "1Password desktop authorization was denied"),
        (Error::DesktopSessionExpired, "1Password desktop session expired"),
        (
            Error::SecretResolutionFailed,
            "1Password could not resolve one or more secret references",
        ),
        (protocol_error("m".to_owned()), "1Password SDK protocol error: m"),
    ];
    for (error, text) in shown {
        assert_eq!(error.to_string(), text);
    }
}

#[test]
fn control_codes_are_those_of_the_standard_library() {
    for code in 0..=0x10ffffu32 {
        if let Some(c) = char::from_u32(code) {
            assert_eq!(is_control(c), c.is_control());
        }
    }
    assert!(contains_control("ab\u{85}"));
    assert!(!contains_control("a\u{20ac}b"));
}

#[test]
fn texts_are_measured_in_bytes_and_joined() {
    assert_eq!(byte_len("a\u{20ac}"), 4);
    assert_eq!(byte_len(""), 0);
    assert_eq!(joined("ab", "c"), "abc");
}
