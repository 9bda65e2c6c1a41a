//! What is sent to the desktop app and what its replies are read as, said of the calls that write
//! and read them and of the members of the documents.
use serde_json::Value;
use vstd::prelude::*;
use vstd::utf8::{decode_utf8, valid_utf8};

use crate::encoding::{base64_decoded, base64_text};
use crate::error::{outcome, protocol_error, Error, ErrorView};
use crate::json::{duplicates, json_bytes, json_of, json_parsed, jsons_of, text_list, Json};
use crate::platform::Platform;
use crate::text::{occurs_at, occurs_in, texts_of, utf8_lossy};
use crate::transport::{
    bytes_listed, classify_return_code, classify_sdk_error, decode_response_payload, encode_payload,
    is_byte, message_document, payload_bytes, read_response, DesktopTransport, Reply,
};

verus! {

/// A text stands somewhere in another exactly where the other is something, then the text, then
/// something.
pub proof fn law_occurrence(needle: Seq<char>, text: Seq<char>)
    ensures
        occurs_in(needle, text) <==> exists|before: Seq<char>, after: Seq<char>|
            text == #[trigger] (before + needle + after),
{
    if occurs_in(needle, text) {
        let start = choose|start: int| #[trigger] occurs_at(needle, text, start);
        let before = text.take(start);
        let after = text.skip(start + needle.len());
        assert(text =~= before + needle + after) by {
            assert forall|i: int| 0 <= i < text.len() implies text[i] == (before + needle
                + after)[i] by {
                if start <= i < start + needle.len() {
                    assert(text.subrange(start, start + needle.len())[i - start] == text[i]);
                }
            }
        }
    }
    if exists|before: Seq<char>, after: Seq<char>| text == #[trigger] (before + needle + after) {
        let (before, after) = choose|before: Seq<char>, after: Seq<char>|
            text == #[trigger] (before + needle + after);
        let start = before.len() as int;
        assert(text.subrange(start, start + needle.len()) =~= needle);
        assert(occurs_at(needle, text, start));
    }
}

/// The member of an object is the value under the key, and there is none under a key that the
/// object does not have, nor in a document that is not an object.
pub proof fn law_member(document: Json, key: Seq<char>)
    ensures
        document matches Json::Object(members) ==> {
            &&& members.contains_key(key) ==> document.member(key) == Some(members[key])
            &&& !members.contains_key(key) ==> document.member(key) is None
        },
        !(document is Object) ==> document.member(key) is None,
{
}

/// Two errors look the same exactly where they are of one kind and have the same message.
pub proof fn law_errors_are_told_apart(error: Error, message: Seq<char>)
    ensures
        error@ == ErrorView::UnsupportedPlatform(message) <==> (
        error matches Error::UnsupportedPlatform(text) && text@ == message),
        error@ == ErrorView::InvalidArgument(message) <==> (error matches Error::InvalidArgument(
            text,
        ) && text@ == message),
        error@ == ErrorView::Unavailable(message) <==> (error matches Error::Unavailable(text)
            && text@ == message),
        error@ == ErrorView::Protocol(message) <==> (error matches Error::Protocol(text) && text@
            == message),
        error@ == ErrorView::AuthorizationDenied <==> error is AuthorizationDenied,
        error@ == ErrorView::DesktopSessionExpired <==> error is DesktopSessionExpired,
        error@ == ErrorView::SecretResolutionFailed <==> error is SecretResolutionFailed,
{
}

/// An error is shown as what kind of error it is and then its whole message.
pub proof fn law_errors_are_shown(error: Error, shown: String)
    requires
        call_ensures(Error::to_string, (&error,), shown),
    ensures
        match error {
            Error::UnsupportedPlatform(message) => shown@ == "unsupported platform: "@ + message@,
            Error::InvalidArgument(message) => shown@ == "invalid argument: "@ + message@,
            Error::Unavailable(message) => shown@ == "1Password desktop SDK is unavailable: "@
                + message@,
            Error::AuthorizationDenied => shown@ == "1Password desktop authorization was denied"@,
            Error::DesktopSessionExpired => shown@ == "1Password desktop session expired"@,
            Error::SecretResolutionFailed => shown@
                == "1Password could not resolve one or more secret references"@,
            Error::Protocol(message) => shown@ == "1Password SDK protocol error: "@ + message@,
        },
{
}

/// A protocol error has the text that it was made of.
pub proof fn law_protocol_errors_keep_their_text(text: String, error: Error)
    requires
        call_ensures(protocol_error, (text,), error),
    ensures
        error matches Error::Protocol(message) && message@ == text@,
{
}

/// An error text in which `Denied authorization` stands, whatever is before and after it, means that
/// the authorization was denied.
pub proof fn law_denied_anywhere(
    before: Seq<char>,
    after: Seq<char>,
    text: &str,
    error: Error,
)
    requires
        call_ensures(classify_sdk_error, (text,), error),
        text@ == before + "Denied authorization"@ + after,
    ensures
        error is AuthorizationDenied,
{
    law_occurrence("Denied authorization"@, text@);
}

/// An error text in which one of the two markers of an expired session stands, whatever is before
/// and after it, means that the session has expired, unless the authorization was denied.
pub proof fn law_expired_anywhere(
    before: Seq<char>,
    marker: Seq<char>,
    after: Seq<char>,
    text: &str,
    error: Error,
)
    requires
        call_ensures(classify_sdk_error, (text,), error),
        marker == "DesktopSessionExpired"@ || marker == "desktop session expired"@,
        text@ == before + marker + after,
        forall|b: Seq<char>, a: Seq<char>| text@ != #[trigger] (b + "Denied authorization"@ + a),
    ensures
        error is DesktopSessionExpired,
{
    law_occurrence("Denied authorization"@, text@);
    law_occurrence(marker, text@);
}

/// An error text in which none of the markers stands means that the request failed, and no more is
/// said of it.
pub proof fn law_other_failures(text: &str, error: Error)
    requires
        call_ensures(classify_sdk_error, (text,), error),
        forall|b: Seq<char>, a: Seq<char>| text@ != #[trigger] (b + "Denied authorization"@ + a),
        forall|b: Seq<char>, a: Seq<char>| text@ != #[trigger] (b + "DesktopSessionExpired"@ + a),
        forall|b: Seq<char>, a: Seq<char>| text@ != #[trigger] (b + "desktop session expired"@ + a),
    ensures
        error matches Error::Unavailable(message) && message@ == "desktop SDK request failed"@,
{
    law_occurrence("Denied authorization"@, text@);
    law_occurrence("DesktopSessionExpired"@, text@);
    law_occurrence("desktop session expired"@, text@);
}

/// On each platform two return codes have a meaning of their own; all others say only that the call
/// failed.
pub proof fn law_return_codes(platform: Platform, code: i32, error: Error)
    requires
        call_ensures(classify_return_code, (platform, code), error),
    ensures
        error matches Error::Unavailable(message) && {
            &&& platform == Platform::Macos && code == -3 || platform == Platform::Linux && code
                == -2 ==> message@ == "desktop app connection channel is closed"@
            &&& platform == Platform::Macos && code == -7 || platform == Platform::Linux && code
                == -5 ==> message@ == "connection was unexpectedly dropped by the desktop app"@
            &&& platform == Platform::Macos && code != -3 && code != -7 || platform
                == Platform::Linux && code != -2 && code != -5 ==> message@
                == "desktop SDK IPC call failed"@
        },
{
}

/// A payload in base64 is read back as the bytes that it was made of.
pub proof fn law_encoded_payloads_are_read_back(
    payload: &[u8],
    encoded: String,
    value: &Value,
    result: Result<Vec<u8>, Error>,
)
    requires
        call_ensures(encode_payload, (payload,), encoded),
        call_ensures(decode_response_payload, (Some(value),), result),
        json_of(*value) == Json::Text(encoded@),
    ensures
        encoded@ == base64_text(payload@),
        result matches Ok(bytes) && bytes@ == payload@,
{
}

/// A payload that is a text is read as what base64 decodes it to, and where it decodes it to nothing
/// the error is that of base64.
pub proof fn law_text_payloads(value: &Value, text: Seq<char>, result: Result<Vec<u8>, Error>)
    requires
        call_ensures(decode_response_payload, (Some(value),), result),
        json_of(*value) == Json::Text(text),
    ensures
        base64_decoded(text) matches Ok(decoded) ==> (result matches Ok(bytes) && bytes@ == decoded),
        base64_decoded(text) matches Err(reason) ==> (result matches Err(Error::Protocol(message))
            && message@ == reason),
{
}

/// A payload that lists bytes is read as exactly those bytes, as many and in the same order.
pub proof fn law_list_payloads(
    value: &Value,
    elements: Seq<Json>,
    bytes: Seq<u8>,
    result: Result<Vec<u8>, Error>,
)
    requires
        call_ensures(decode_response_payload, (Some(value),), result),
        json_of(*value) == Json::List(elements),
        elements.len() == bytes.len(),
        forall|i: int|
            0 <= i < bytes.len() ==> #[trigger] elements[i] == Json::Unsigned(bytes[i] as u64),
    ensures
        result matches Ok(read) && read@ == bytes,
{
    lemma_listed(elements, bytes);
}

/// A list of bytes spells those bytes.
pub proof fn lemma_listed(elements: Seq<Json>, bytes: Seq<u8>)
    requires
        elements.len() == bytes.len(),
        forall|i: int|
            0 <= i < bytes.len() ==> #[trigger] elements[i] == Json::Unsigned(bytes[i] as u64),
    ensures
        payload_bytes(Some(Json::List(elements))) == Ok::<Seq<u8>, ErrorView>(bytes),
{
    assert forall|i: int| 0 <= i < elements.len() implies is_byte(#[trigger] elements[i]) by {
        assert(elements[i] == Json::Unsigned(bytes[i] as u64));
    }
    assert forall|i: int| 0 <= i < bytes.len() implies bytes_listed(elements)[i]
        == #[trigger] bytes[i] by {
        let byte = bytes[i];
        assert(elements[i] == Json::Unsigned(bytes[i] as u64));
        assert(byte as u64 as u8 == byte) by (bit_vector);
    }
    assert(bytes_listed(elements) =~= bytes);
}

/// A list with an element that is not an integer from 0 to 255 is no payload.
pub proof fn law_lists_of_other_things(
    value: &Value,
    elements: Seq<Json>,
    index: int,
    result: Result<Vec<u8>, Error>,
)
    requires
        call_ensures(decode_response_payload, (Some(value),), result),
        json_of(*value) == Json::List(elements),
        0 <= index < elements.len(),
        !(elements[index] matches Json::Unsigned(number) && number <= 255),
    ensures
        result matches Err(Error::Protocol(message)) && message@
            == "SDK response payload contains a non-byte value"@,
{
    assert(!is_byte(elements[index]));
}

/// A payload that is neither a text nor a list has no bytes, and neither has one that is missing.
pub proof fn law_payloads_of_other_shapes(
    value: Option<&Value>,
    result: Result<Vec<u8>, Error>,
)
    requires
        call_ensures(decode_response_payload, (value,), result),
    ensures
        value is None ==> (result matches Err(Error::Protocol(message)) && message@
            == "SDK response is missing payload"@),
        value matches Some(payload) ==> !(json_of(*payload) is Text) && !(json_of(
            *payload,
        ) is List) ==> (result matches Err(Error::Protocol(message)) && message@
            == "SDK response payload has an unsupported shape"@),
{
}

/// A message is the JSON of an object with three members and no others: the kind, the account, and
/// the payload in base64, each as it was handed in.
pub proof fn law_messages(
    transport: &DesktopTransport,
    account: &str,
    kind: &str,
    payload: &[u8],
    result: Result<Vec<u8>, Error>,
    members: Map<Seq<char>, Json>,
)
    requires
        call_ensures(DesktopTransport::call, (transport, account, kind, payload), result),
        members.dom() == set!["kind"@, "account_name"@, "payload"@],
        members["kind"@] == Json::Text(kind@),
        members["account_name"@] == Json::Text(account@),
        members["payload"@] == Json::Text(base64_text(payload@)),
    ensures
        result matches Ok(message) && message@ == json_bytes(Json::Object(members)),
{
    reveal_strlit("kind");
    reveal_strlit("account_name");
    reveal_strlit("payload");
    assert("kind"@.len() != "account_name"@.len());
    assert("kind"@.len() != "payload"@.len());
    assert("account_name"@.len() != "payload"@.len());
    assert(message_document(account@, kind@, payload@)->Object_0 =~= members);
}

/// A response that reports success gives the bytes of its payload, in either shape of the payload
/// and whatever the bytes are.
pub proof fn law_successful_responses(
    response: &Value,
    members: Map<Seq<char>, Json>,
    payload: Json,
    bytes: Seq<u8>,
    result: Result<Vec<u8>, Error>,
)
    requires
        call_ensures(read_response, (response,), result),
        json_of(*response) == Json::Object(members),
        members.contains_key("success"@) && members["success"@] == Json::Bool(true),
        members.contains_key("payload"@) && members["payload"@] == payload,
        (payload matches Json::Text(encoded) && base64_decoded(encoded) == Ok::<Seq<u8>, Seq<char>>(
            bytes,
        )) || (payload matches Json::List(elements) && elements.len() == bytes.len() && forall|
            i: int,
        |
            0 <= i < bytes.len() ==> #[trigger] elements[i] == Json::Unsigned(bytes[i] as u64)),
    ensures
        result matches Ok(read) && read@ == bytes,
{
    if payload is List {
        lemma_listed(payload->List_0, bytes);
    }
}

/// A reply with the code zero whose answer reports success gives the bytes of the payload, in either
/// shape of the payload and whatever the bytes are.
pub proof fn law_successful_replies(
    transport: &DesktopTransport,
    reply: Reply,
    output: Vec<u8>,
    members: Map<Seq<char>, Json>,
    payload: Json,
    bytes: Seq<u8>,
    result: Result<Vec<u8>, Error>,
)
    requires
        call_ensures(DesktopTransport::receive, (transport, reply), result),
        reply.code == 0,
        reply.output == Some(output),
        json_parsed(output@) == Ok::<Json, Seq<char>>(Json::Object(members)),
        members.contains_key("success"@) && members["success"@] == Json::Bool(true),
        members.contains_key("payload"@) && members["payload"@] == payload,
        (payload matches Json::Text(encoded) && base64_decoded(encoded) == Ok::<Seq<u8>, Seq<char>>(
            bytes,
        )) || (payload matches Json::List(elements) && elements.len() == bytes.len() && forall|
            i: int,
        |
            0 <= i < bytes.len() ==> #[trigger] elements[i] == Json::Unsigned(bytes[i] as u64)),
    ensures
        result matches Ok(read) && read@ == bytes,
{
    if payload is List {
        lemma_listed(payload->List_0, bytes);
    }
}

/// A response that does not say `true` under `success`, and whose payload can be read, gives the
/// error that the text of the payload stands for: that text is what the bytes encode where they are
/// valid UTF-8.
pub proof fn law_failed_responses(
    response: &Value,
    payload: Option<&Value>,
    bytes: Vec<u8>,
    text: &str,
    error: Error,
    result: Result<Vec<u8>, Error>,
)
    requires
        call_ensures(read_response, (response,), result),
        json_of(*response).member("success"@) != Some(Json::Bool(true)),
        json_of(*response).member("payload"@) == match payload {
            Some(value) => Some(json_of(*value)),
            None => None,
        },
        call_ensures(decode_response_payload, (payload,), Ok::<Vec<u8>, Error>(bytes)),
        text@ == utf8_lossy(bytes@) || valid_utf8(bytes@) && text@ == decode_utf8(bytes@),
        call_ensures(classify_sdk_error, (text,), error),
    ensures
        result matches Err(failure) && failure@ == error@,
{
    assert(outcome(Ok::<Vec<u8>, Error>(bytes)) == Ok::<Seq<u8>, ErrorView>(bytes@));
}

/// A response whose payload cannot be read gives the error of that, whether it reports success or
/// not.
pub proof fn law_unreadable_responses(
    response: &Value,
    payload: Option<&Value>,
    error: Error,
    result: Result<Vec<u8>, Error>,
)
    requires
        call_ensures(read_response, (response,), result),
        json_of(*response).member("payload"@) == match payload {
            Some(value) => Some(json_of(*value)),
            None => None,
        },
        call_ensures(decode_response_payload, (payload,), Err::<Vec<u8>, Error>(error)),
    ensures
        result matches Err(failure) && failure@ == error@,
{
    assert(outcome(Err::<Vec<u8>, Error>(error)) == Err::<Seq<u8>, ErrorView>(error@));
}

/// A reply is read by its code first, then by whether there is an answer, then by whether the answer
/// is JSON; an answer that is gives what the response gives that it spells.
pub proof fn law_replies(
    transport: &DesktopTransport,
    reply: Reply,
    result: Result<Vec<u8>, Error>,
    refusal: Error,
    response: &Value,
    read: Result<Vec<u8>, Error>,
)
    requires
        call_ensures(DesktopTransport::receive, (transport, reply), result),
        call_ensures(classify_return_code, (transport.platform, reply.code), refusal),
        call_ensures(read_response, (response,), read),
    ensures
        reply.code != 0 ==> (result matches Err(error) && error@ == refusal@),
        reply.code == 0 && reply.output is None ==> (result matches Err(Error::Unavailable(message))
            && message@ == "SDK IPC returned a null response"@),
        reply.code == 0 ==> (reply.output matches Some(output) ==> (json_parsed(
            output@,
        ) matches Err(reason) ==> (result matches Err(Error::Protocol(message)) && message@
            == reason))),
        reply.code == 0 ==> (reply.output matches Some(output) ==> (json_parsed(output@) == Ok::<
            Json,
            Seq<char>,
        >(json_of(*response)) ==> match (result, read) {
            (Ok(bytes), Ok(other)) => bytes@ == other@,
            (Err(error), Err(other)) => error@ == other@,
            _ => false,
        })),
{
}

/// A list of texts is an array of exactly those texts, as many and in the same order.
pub proof fn law_text_lists(texts: &Vec<String>, value: Value)
    requires
        call_ensures(text_list, (texts,), value),
    ensures
        json_of(value) matches Json::List(elements) && elements.len() == texts@.len() && forall|
            i: int,
        |
            0 <= i < elements.len() ==> #[trigger] elements[i] == Json::Text(texts@[i]@),
{
    assert(texts_of(texts@).len() == texts@.len());
}

/// Copies of values hold the same documents, as many and in the same order.
pub proof fn law_copies(values: &[Value], copies: Vec<Value>)
    requires
        call_ensures(duplicates, (values,), copies),
    ensures
        copies@.len() == values@.len(),
        forall|i: int|
            0 <= i < values@.len() ==> json_of(#[trigger] copies@[i]) == json_of(values@[i]),
{
    assert(jsons_of(copies@).len() == copies@.len());
    assert forall|i: int| 0 <= i < values@.len() implies json_of(#[trigger] copies@[i]) == json_of(
        values@[i],
    ) by {
        assert(jsons_of(copies@)[i] == jsons_of(values@)[i]);
    }
}

} // verus!
