//! The messages that go to the desktop app and the answers that come back.
use serde_json::Value;
use vstd::prelude::*;
use vstd::utf8::{decode_utf8, valid_utf8};

use crate::encoding;
use crate::encoding::{base64_decoded, base64_text};
use crate::error::{outcome, protocol_error, Error, ErrorView};
use crate::json;
use crate::json::{json_bytes, json_of, json_parsed, jsons_of, Json};
use crate::platform::Platform;
use crate::text;
use crate::text::{occurs_in, utf8_lossy};

verus! {

/// What a call of the SDK IPC library gave: its return code, and the bytes that it answered with,
/// where it answered with any.
pub struct Reply {
    pub code: i32,
    pub output: Option<Vec<u8>>,
}

/// A reply by the bytes of its answer.
pub struct ReplyView {
    pub code: i32,
    pub output: Option<Seq<u8>>,
}

impl View for Reply {
    type V = ReplyView;

    open spec fn view(&self) -> ReplyView {
        ReplyView {
            code: self.code,
            output: match self.output {
                Some(bytes) => Some(bytes@),
                None => None,
            },
        }
    }
}

/// The message protocol of a loaded SDK IPC library.
#[derive(Clone, Copy, Debug)]
pub struct DesktopTransport {
    pub platform: Platform,
}

/// The document of a message: what is asked, for which account, with the payload in base64.
pub open spec fn message_document(
    account: Seq<char>,
    kind: Seq<char>,
    payload: Seq<u8>,
) -> Json {
    Json::Object(
        map![
            "kind"@ => Json::Text(kind),
            "account_name"@ => Json::Text(account),
            "payload"@ => Json::Text(base64_text(payload)),
        ],
    )
}

/// The document that the bytes spell, or a protocol error where they spell none.
pub open spec fn bytes_document(bytes: Seq<u8>) -> Result<Json, ErrorView> {
    match json_parsed(bytes) {
        Ok(document) => Ok(document),
        Err(error) => Err(ErrorView::Protocol(error)),
    }
}

/// The error for a return code other than zero. The code itself is not in it.
pub open spec fn return_code_error(platform: Platform, code: i32) -> ErrorView {
    let closed: int = if platform == Platform::Macos {
        -3
    } else {
        -2
    };
    let dropped: int = if platform == Platform::Macos {
        -7
    } else {
        -5
    };
    ErrorView::Unavailable(
        if code == closed {
            "desktop app connection channel is closed"@
        } else if code == dropped {
            "connection was unexpectedly dropped by the desktop app"@
        } else {
            "desktop SDK IPC call failed"@
        },
    )
}

/// The error for a request that the desktop app answered with an error text. The text itself is
/// not in it.
pub open spec fn sdk_error(error: Seq<char>) -> ErrorView {
    if occurs_in("Denied authorization"@, error) {
        ErrorView::AuthorizationDenied
    } else if occurs_in("DesktopSessionExpired"@, error) || occurs_in(
        "desktop session expired"@,
        error,
    ) {
        ErrorView::DesktopSessionExpired
    } else {
        ErrorView::Unavailable("desktop SDK request failed"@)
    }
}

/// Whether the document is an integer that a byte can hold.
pub open spec fn is_byte(document: Json) -> bool {
    document matches Json::Unsigned(number) && number <= 255
}

/// The bytes that a list of byte documents spells.
pub open spec fn bytes_listed(elements: Seq<Json>) -> Seq<u8> {
    elements.map_values(|element: Json| element->Unsigned_0 as u8)
}

/// The bytes of a response payload, which is a text in base64 or a list of bytes.
pub open spec fn payload_bytes(payload: Option<Json>) -> Result<Seq<u8>, ErrorView> {
    match payload {
        None => Err(ErrorView::Protocol("SDK response is missing payload"@)),
        Some(Json::Text(encoded)) => match base64_decoded(encoded) {
            Ok(bytes) => Ok(bytes),
            Err(error) => Err(ErrorView::Protocol(error)),
        },
        Some(Json::List(elements)) => if forall|i: int|
            0 <= i < elements.len() ==> is_byte(#[trigger] elements[i]) {
            Ok(bytes_listed(elements))
        } else {
            Err(ErrorView::Protocol("SDK response payload contains a non-byte value"@))
        },
        Some(_) => Err(ErrorView::Protocol("SDK response payload has an unsupported shape"@)),
    }
}

/// What a response says: its payload where it reports success, else the error that the payload
/// stands for.
pub open spec fn response_bytes(response: Json) -> Result<Seq<u8>, ErrorView> {
    match payload_bytes(response.member("payload"@)) {
        Ok(payload) => if response.member("success"@) == Some(Json::Bool(true)) {
            Ok(payload)
        } else {
            Err(sdk_error(utf8_lossy(payload)))
        },
        Err(error) => Err(error),
    }
}

/// The payload of a response that does not report success, where its payload can be read.
pub open spec fn reports_failure(response: Json) -> Option<Seq<u8>> {
    match payload_bytes(response.member("payload"@)) {
        Ok(payload) if response.member("success"@) != Some(Json::Bool(true)) => Some(payload),
        _ => None,
    }
}

/// The payload of a reply that reports a failure, where its payload can be read.
pub open spec fn reported_failure(reply: ReplyView) -> Option<Seq<u8>> {
    match reply.output {
        Some(bytes) if reply.code == 0 => match bytes_document(bytes) {
            Ok(response) => reports_failure(response),
            Err(_) => None,
        },
        _ => None,
    }
}

/// Whether the text of the failure that a reply reports, where its bytes are valid UTF-8, is the
/// text that they encode.
pub open spec fn failure_text_is_encoded(reply: ReplyView) -> bool {
    match reported_failure(reply) {
        Some(payload) => valid_utf8(payload) ==> utf8_lossy(payload) == decode_utf8(payload),
        None => true,
    }
}

/// What a reply says.
pub open spec fn reply_bytes(platform: Platform, reply: ReplyView) -> Result<Seq<u8>, ErrorView> {
    if reply.code != 0 {
        Err(return_code_error(platform, reply.code))
    } else {
        match reply.output {
            None => Err(ErrorView::Unavailable("SDK IPC returned a null response"@)),
            Some(bytes) => match bytes_document(bytes) {
                Ok(response) => response_bytes(response),
                Err(error) => Err(error),
            },
        }
    }
}

/// The error for a return code other than zero.
pub fn classify_return_code(platform: Platform, code: i32) -> (error: Error)
    ensures
        error@ == return_code_error(platform, code),
{
    let message = match platform {
        Platform::Macos => match code {
            -3 => "desktop app connection channel is closed",
            -7 => "connection was unexpectedly dropped by the desktop app",
            _ => "desktop SDK IPC call failed",
        },
        Platform::Linux => match code {
            -2 => "desktop app connection channel is closed",
            -5 => "connection was unexpectedly dropped by the desktop app",
            _ => "desktop SDK IPC call failed",
        },
    };
    Error::Unavailable(message.to_owned())
}

/// The error for a request that the desktop app answered with an error text.
pub fn classify_sdk_error(error: &str) -> (result: Error)
    ensures
        result@ == sdk_error(error@),
{
    if text::contains(error, "Denied authorization") {
        Error::AuthorizationDenied
    } else if text::contains(error, "DesktopSessionExpired") || text::contains(
        error,
        "desktop session expired",
    ) {
        Error::DesktopSessionExpired
    } else {
        Error::Unavailable("desktop SDK request failed".to_owned())
    }
}

/// The payload in base64, as a message carries it. A response payload of that text is read as the
/// same bytes.
pub fn encode_payload(payload: &[u8]) -> (encoded: String)
    ensures
        encoded@ == base64_text(payload@),
        payload_bytes(Some(Json::Text(encoded@))) == Ok::<Seq<u8>, ErrorView>(payload@),
{
    encoding::encode(payload)
}

/// The bytes of a response payload, which is a text in base64 or a list of bytes.
pub fn decode_response_payload(value: Option<&Value>) -> (result: Result<Vec<u8>, Error>)
    ensures
        outcome(result) == payload_bytes(
            match value {
                Some(payload) => Some(json_of(*payload)),
                None => None,
            },
        ),
{
    let payload = match value {
        Some(payload) => payload,
        None => {
            return Err(Error::Protocol("SDK response is missing payload".to_owned()));
        },
    };
    if let Some(encoded) = json::as_str(payload) {
        return match encoding::decode(encoded) {
            Ok(bytes) => Ok(bytes),
            Err(error) => Err(protocol_error(error)),
        };
    }
    let array = match json::as_array(payload) {
        Some(array) => array,
        None => {
            return Err(
                Error::Protocol("SDK response payload has an unsupported shape".to_owned()),
            );
        },
    };
    let ghost elements = jsons_of(array@);
    let mut bytes: Vec<u8> = Vec::new();
    for i in 0..array.len()
        invariant
            elements == jsons_of(array@),
            value == Some(payload),
            json_of(*payload) == Json::List(elements),
            bytes@.len() == i,
            forall|j: int|
                0 <= j < i ==> is_byte(#[trigger] elements[j]) && bytes@[j]
                    == elements[j]->Unsigned_0 as u8,
    {
        let element = json::as_u64(&array[i]);
        assert(elements[i as int] == json_of(array@[i as int]));
        match element {
            Some(number) if number <= 255 => {
                bytes.push(number as u8);
            },
            _ => {
                assert(!is_byte(elements[i as int]));
                return Err(
                    Error::Protocol("SDK response payload contains a non-byte value".to_owned()),
                );
            },
        }
    }
    assert(bytes@ =~= bytes_listed(elements));
    Ok(bytes)
}

/// What a response says: its payload where it reports success, else the error that the payload
/// stands for.
pub fn read_response(response: &Value) -> (result: Result<Vec<u8>, Error>)
    ensures
        outcome(result) == response_bytes(json_of(*response)),
        reports_failure(json_of(*response)) matches Some(payload) ==> valid_utf8(payload)
            ==> utf8_lossy(payload) == decode_utf8(payload),
{
    let success = match json::get(response, "success") {
        Some(flag) => match json::as_bool(flag) {
            Some(success) => success,
            None => false,
        },
        None => false,
    };
    let payload = decode_response_payload(json::get(response, "payload"))?;
    if success {
        return Ok(payload);
    }
    Err(classify_sdk_error(text::from_utf8_lossy(payload.as_slice()).as_str()))
}

impl DesktopTransport {
    /// The bytes of a message to the desktop app.
    pub fn call(&self, account: &str, kind: &str, payload: &[u8]) -> (result: Result<
        Vec<u8>,
        Error,
    >)
        ensures
            result matches Ok(message) && message@ == json_bytes(
                message_document(account@, kind@, payload@),
            ),
    {
        let mut members = json::no_members();
        json::insert(&mut members, "kind", json::text(kind));
        json::insert(&mut members, "account_name", json::text(account));
        json::insert(&mut members, "payload", json::text(encode_payload(payload).as_str()));
        match json::to_vec(&json::object(members)) {
            Ok(bytes) => Ok(bytes),
            Err(error) => Err(protocol_error(error)),
        }
    }

    /// What the reply to a message says.
    pub fn receive(&self, reply: Reply) -> (result: Result<Vec<u8>, Error>)
        ensures
            outcome(result) == reply_bytes(self.platform, reply@),
            failure_text_is_encoded(reply@),
    {
        if reply.code != 0 {
            return Err(classify_return_code(self.platform, reply.code));
        }
        match reply.output {
            None => Err(Error::Unavailable("SDK IPC returned a null response".to_owned())),
            Some(bytes) => match json::from_slice(bytes.as_slice()) {
                Ok(response) => read_response(&response),
                Err(error) => Err(protocol_error(error)),
            },
        }
    }
}

} // verus!
