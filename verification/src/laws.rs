//! What holds of the library as a whole.
pub mod answers;
pub mod inputs;
pub mod loading;
pub mod replies;
pub mod requests;
pub mod session;

use vstd::prelude::*;
use vstd::utf8::encode_utf8;

use crate::client::{
    answered_document, answered_id, init_message, ClientView, InvocationView, ProgressView, Stage,
};
use crate::encoding::base64_decoded;
use crate::error::{first_fault, lemma_no_first_fault, ErrorView};
use crate::json::{json_bytes, Json};
use crate::laws::inputs::lemma_total_length_is_that_of_all;
use crate::platform::Platform;
use crate::secrets::{first_text, secret_faults, secret_for, secrets_for};
use crate::text::{has_control, is_control_char, occurs_in};
use crate::transport::{
    bytes_listed, is_byte, payload_bytes, reply_bytes, reported_failure, return_code_error,
    sdk_error, ReplyView,
};
use crate::validate::{
    account_verdict, batch_verdict, identifier_verdict, item_fault, item_faults, item_id_faults,
    item_ids_verdict, item_verdict, metadata_verdict, reference_fault, reference_faults,
    references_verdict, total_length, total_size, MAX_ITEM_BATCH, MAX_SECRET_REFERENCES,
};

verus! {

/// The beginning of a list of texts is no longer than a longer beginning.
pub proof fn lemma_total_length_grows(texts: Seq<Seq<char>>, shorter: int, longer: int)
    requires
        0 <= shorter <= longer,
    ensures
        total_length(texts, shorter) <= total_length(texts, longer),
    decreases longer - shorter,
{
    if shorter < longer {
        lemma_total_length_grows(texts, shorter, longer - 1);
    }
}

/// The beginning of a list of documents has no more bytes than a longer beginning.
pub proof fn lemma_total_size_grows(documents: Seq<Json>, shorter: int, longer: int)
    requires
        0 <= shorter <= longer,
    ensures
        total_size(documents, shorter) <= total_size(documents, longer),
    decreases longer - shorter,
{
    if shorter < longer {
        lemma_total_size_grows(documents, shorter, longer - 1);
    }
}

/// The earliest fault is one of the faults.
pub proof fn lemma_first_fault_is_a_fault(faults: Seq<Option<ErrorView>>)
    requires
        first_fault(faults) is Some,
    ensures
        exists|i: int| 0 <= i < faults.len() && #[trigger] faults[i] == first_fault(faults),
    decreases faults.len(),
{
    let shorter = faults.drop_last();
    if first_fault(shorter) is Some {
        lemma_first_fault_is_a_fault(shorter);
        let i = choose|i: int|
            0 <= i < shorter.len() && #[trigger] shorter[i] == first_fault(shorter);
        assert(faults[i] == first_fault(faults));
    } else {
        assert(faults[faults.len() - 1] == first_fault(faults));
    }
}

/// A text holds a control code exactly where the code point of one of its characters is one.
pub proof fn lemma_control_codes(text: Seq<char>)
    ensures
        has_control(text) <==> exists|k: int|
            0 <= k < text.len() && ((#[trigger] text[k]) as u32 <= 0x1f || 0x7f <= text[k] as u32
                <= 0x9f),
{
    if has_control(text) {
        let k = choose|k: int| 0 <= k < text.len() && is_control_char(#[trigger] text[k]);
        assert(text[k] as u32 <= 0x1f || 0x7f <= text[k] as u32 <= 0x9f);
    } else {
        assert forall|k: int| 0 <= k < text.len() implies !((#[trigger] text[k]) as u32 <= 0x1f
            || 0x7f <= text[k] as u32 <= 0x9f) by {
            assert(!is_control_char(text[k]));
        }
    }
}

/// An account name is accepted exactly where it is not empty, is not too long and holds no control
/// character.
pub proof fn law_accepted_account(account: Seq<char>)
    ensures
        account_verdict(account) is Ok <==> {
            &&& account.len() > 0
            &&& encode_utf8(account).len() <= 4096
            &&& forall|k: int|
                0 <= k < account.len() ==> !(
                    (#[trigger] account[k]) as u32 <= 0x1f
                    || 0x7f <= account[k] as u32
                    <= 0x9f)
        },
{
    lemma_control_codes(account);
}

/// A name or a version that an integration gives itself is accepted exactly where it is not empty,
/// is not too long and holds no control character.
pub proof fn law_accepted_metadata(label: Seq<char>, value: Seq<char>)
    ensures
        metadata_verdict(label, value) is Ok <==> {
            &&& value.len() > 0
            &&& encode_utf8(value).len() <= 1024
            &&& forall|k: int|
                0 <= k < value.len() ==> !(
                    (#[trigger] value[k]) as u32 <= 0x1f
                    || 0x7f <= value[k] as u32
                    <= 0x9f)
        },
{
    lemma_control_codes(value);
}

/// The identifier of a vault or an item is accepted exactly where it is neither empty nor too long.
pub proof fn law_accepted_identifier(kind: Seq<char>, value: Seq<char>)
    ensures
        identifier_verdict(kind, value) is Ok <==> {
            &&& value.len() > 0
            &&& encode_utf8(value).len() <= 4096
        },
{
}

/// A batch of secret references is accepted exactly where it has one entry or more but not too
/// many, each of them begins with `op://`, is not too long and holds no control character, and all
/// of them together are not too long.
pub proof fn law_accepted_references(references: Seq<Seq<char>>)
    ensures
        references_verdict(references) is Ok <==> {
            &&& 1 <= references.len() <= 100
            &&& forall|i: int|
                0 <= i < references.len() ==> {
                    let reference = #[trigger] references[i];
                    &&& "op://"@.is_prefix_of(reference)
                    &&& encode_utf8(reference).len() <= 4096
                    &&& forall|k: int|
                        0 <= k < reference.len() ==> !((#[trigger] reference[k]) as u32 <= 0x1f
                            || 0x7f <= reference[k] as u32 <= 0x9f)
                }
            &&& encode_utf8(references.flatten()).len() <= 131072
        },
{
    let count = references.len() as int;
    let faults = reference_faults(references, count);
    lemma_no_first_fault(faults);
    lemma_total_length_is_that_of_all(references, count);
    assert(references.take(count) =~= references);
    if references_verdict(references) is Ok {
        assert forall|i: int| 0 <= i < count implies {
            let reference = #[trigger] references[i];
            &&& "op://"@.is_prefix_of(reference)
            &&& encode_utf8(reference).len() <= 4096
            &&& forall|k: int|
                0 <= k < reference.len() ==> !((#[trigger] reference[k]) as u32 <= 0x1f || 0x7f
                    <= reference[k] as u32 <= 0x9f)
        } by {
            assert(faults[i] is None);
            lemma_control_codes(references[i]);
        }
        assert(faults[count - 1] is None);
    } else if 1 <= count <= 100 && total_length(references, count)
        <= 131072 {
        let i = choose|i: int| 0 <= i < count && (#[trigger] faults[i]) is Some;
        lemma_total_length_grows(references, i + 1, count);
        lemma_control_codes(references[i]);
    }
}

/// A batch of items is accepted exactly where it has one item or more but not too many, each of
/// them is an object that is not too large, and all of them together are not too large.
pub proof fn law_accepted_items(kind: Seq<char>, items: Seq<Json>)
    ensures
        batch_verdict(kind, items) is Ok <==> {
            &&& 1 <= items.len() <= 100
            &&& forall|i: int|
                0 <= i < items.len() ==> {
                    let item = #[trigger] items[i];
                    item is Object && json_bytes(item).len() <= 1048576
                }
            &&& total_size(items, items.len() as int) <= 8388608
        },
{
    let count = items.len() as int;
    let faults = item_faults(kind, items, count);
    lemma_no_first_fault(faults);
    if batch_verdict(kind, items) is Ok {
        assert forall|i: int| 0 <= i < count implies {
            let item = #[trigger] items[i];
            item is Object && json_bytes(item).len() <= 1048576
        } by {
            assert(faults[i] is None);
        }
        assert(faults[count - 1] is None);
    } else if 1 <= count <= 100 && total_size(items, count)
        <= 8388608 {
        let i = choose|i: int| 0 <= i < count && (#[trigger] faults[i]) is Some;
        lemma_total_size_grows(items, i + 1, count);
        assert(items[i] == items[i]);
    }
}

/// A batch of item identifiers is accepted exactly where it has one entry or more but not too many
/// and each of them is neither empty nor too long.
pub proof fn law_accepted_item_ids(ids: Seq<Seq<char>>)
    ensures
        item_ids_verdict(ids) is Ok <==> {
            &&& 1 <= ids.len() <= 100
            &&& forall|i: int|
                0 <= i < ids.len() ==> {
                    let id = #[trigger] ids[i];
                    id.len() > 0 && encode_utf8(id).len() <= 4096
                }
        },
{
    let count = ids.len() as int;
    let faults = item_id_faults(ids, count);
    lemma_no_first_fault(faults);
    if item_ids_verdict(ids) is Ok {
        assert forall|i: int| 0 <= i < count implies {
            let id = #[trigger] ids[i];
            id.len() > 0 && encode_utf8(id).len() <= 4096
        } by {
            assert(faults[i] is None);
        }
    } else if 1 <= count <= 100 {
        let i = choose|i: int| 0 <= i < count && (#[trigger] faults[i]) is Some;
        assert(ids[i] == ids[i]);
    }
}

/// What is said of an item that is refused depends on what it is called, not on what it holds: it
/// is one of two texts, so it holds nothing of the item that is in neither.
pub proof fn law_item_refusals_do_not_echo(kind: Seq<char>, item: Json, detail: Seq<char>)
    requires
        !occurs_in(
            detail,
            ErrorView::InvalidArgument(kind + " must be a JSON object"@).rendered(),
        ),
        !occurs_in(
            detail,
            ErrorView::InvalidArgument(kind + " exceeds 1048576 bytes"@).rendered(),
        ),
    ensures
        item_verdict(kind, item) matches Err(error) ==> !occurs_in(detail, error.rendered()),
{
}

/// What is said of a batch of items that is refused depends on what the batch is called, not on what
/// the items hold: it is one of four texts, so it holds nothing of the items that is in none of
/// them.
pub proof fn law_batch_refusals_do_not_echo(kind: Seq<char>, items: Seq<Json>, detail: Seq<char>)
    requires
        !occurs_in(
            detail,
            ErrorView::InvalidArgument(kind + " must contain between 1 and 100 items"@).rendered(),
        ),
        !occurs_in(
            detail,
            ErrorView::InvalidArgument("item"@ + " must be a JSON object"@).rendered(),
        ),
        !occurs_in(
            detail,
            ErrorView::InvalidArgument("item"@ + " exceeds 1048576 bytes"@).rendered(),
        ),
        !occurs_in(
            detail,
            ErrorView::InvalidArgument(kind + " exceeds 8388608 bytes"@).rendered(),
        ),
    ensures
        batch_verdict(kind, items) matches Err(error) ==> !occurs_in(detail, error.rendered()),
{
    if 1 <= items.len() <= MAX_ITEM_BATCH && batch_verdict(kind, items) is Err {
        let faults = item_faults(kind, items, items.len() as int);
        lemma_first_fault_is_a_fault(faults);
        let i = choose|i: int| 0 <= i < faults.len() && #[trigger] faults[i] == first_fault(faults);
        assert(item_fault(kind, items, i) == first_fault(faults));
    }
}

/// Whatever a batch of secret references holds, what is said of it where it is refused is one of
/// six texts.
pub proof fn law_reference_refusals_do_not_echo(references: Seq<Seq<char>>)
    ensures
        references_verdict(references) matches Err(error) ==> {
            ||| error == ErrorView::InvalidArgument("references must not be empty"@)
            ||| error == ErrorView::InvalidArgument("references must contain at most 100 entries"@)
            ||| error == ErrorView::InvalidArgument("secret references must start with op://"@)
            ||| error == ErrorView::InvalidArgument("secret reference exceeds 4096 bytes"@)
            ||| error == ErrorView::InvalidArgument(
                "secret references must not contain control characters"@,
            )
            ||| error == ErrorView::InvalidArgument(
                "secret references exceed 131072 bytes in total"@,
            )
        },
{
    if 1 <= references.len() <= MAX_SECRET_REFERENCES && references_verdict(references) is Err {
        let faults = reference_faults(references, references.len() as int);
        lemma_first_fault_is_a_fault(faults);
        let i = choose|i: int| 0 <= i < faults.len() && #[trigger] faults[i] == first_fault(faults);
        assert(reference_fault(references, i) == first_fault(faults));
    }
}

/// The secrets come in the order of the references, each the one that the answer holds for its
/// reference, and so the same secret for the same reference.
pub proof fn law_secrets_in_request_order(
    answer: Json,
    references: Seq<Seq<char>>,
    secrets: Seq<Seq<char>>,
)
    requires
        secrets_for(answer, references) == Ok::<Seq<Seq<char>>, ErrorView>(secrets),
    ensures
        secrets.len() == references.len(),
        answer.member("individualResponses"@) matches Some(responses) && forall|i: int|
            0 <= i < references.len() ==> secret_for(responses, #[trigger] references[i]) == Ok::<
                Seq<char>,
                ErrorView,
            >(secrets[i]),
        forall|i: int, j: int|
            0 <= i < references.len() && 0 <= j < references.len() && references[i]
                == references[j] ==> #[trigger] secrets[i] == #[trigger] secrets[j],
{
    let responses = answer.member("individualResponses"@)->Some_0;
    let faults = secret_faults(responses, references, references.len() as int);
    lemma_no_first_fault(faults);
    assert forall|i: int| 0 <= i < references.len() implies secret_for(
        responses,
        #[trigger] references[i],
    ) == Ok::<Seq<char>, ErrorView>(secrets[i]) by {
        assert(faults[i] is None);
    }
}

/// The secrets are given exactly where the answer holds responses and a secret for each reference.
pub proof fn law_secrets_are_given(answer: Json, references: Seq<Seq<char>>)
    ensures
        secrets_for(answer, references) is Ok <==> {
            &&& answer.member("individualResponses"@) matches Some(responses)
            &&& responses is Object
            &&& forall|i: int|
                0 <= i < references.len() ==> secret_for(responses, #[trigger] references[i]) is Ok
        },
{
    if answer.member("individualResponses"@) is Some {
        let responses = answer.member("individualResponses"@)->Some_0;
        let faults = secret_faults(responses, references, references.len() as int);
        lemma_no_first_fault(faults);
        if secrets_for(answer, references) is Ok {
            assert forall|i: int| 0 <= i < references.len() implies secret_for(
                responses,
                #[trigger] references[i],
            ) is Ok by {
                assert(faults[i] is None);
            }
        } else if responses is Object {
            let i = choose|i: int| 0 <= i < faults.len() && (#[trigger] faults[i]) is Some;
            assert(secret_for(responses, references[i]) is Err);
        }
    }
}

/// Whatever an answer holds, the error that comes of it when secrets are looked up in it is one of
/// four.
pub proof fn law_secret_errors_do_not_echo(answer: Json, references: Seq<Seq<char>>)
    ensures
        secrets_for(answer, references) matches Err(error) ==> {
            ||| error == ErrorView::SecretResolutionFailed
            ||| error == ErrorView::Protocol("resolve response is missing individualResponses"@)
            ||| error == ErrorView::Protocol("resolve response is missing a requested reference"@)
            ||| error == ErrorView::Protocol("resolve response is missing secret content"@)
        },
{
    if answer.member("individualResponses"@) is Some && secrets_for(answer, references) is Err {
        let responses = answer.member("individualResponses"@)->Some_0;
        if responses is Object {
            let faults = secret_faults(responses, references, references.len() as int);
            lemma_first_fault_is_a_fault(faults);
            let i = choose|i: int|
                0 <= i < faults.len() && #[trigger] faults[i] == first_fault(faults);
            assert(secret_for(responses, references[i]) is Err);
        }
    }
}

/// To resolve one reference is to resolve a batch of that one: the secret is the one that the
/// answer holds for it, and there is always one where the batch succeeds.
pub proof fn law_one_reference_is_a_batch_of_one(answer: Json, reference: Seq<char>)
    ensures
        secrets_for(answer, seq![reference]) matches Ok(secrets) ==> {
            &&& answer.member("individualResponses"@) matches Some(responses)
            &&& first_text(secrets) == secret_for(responses, reference)
            &&& first_text(secrets) is Ok
        },
{
    let references = seq![reference];
    if secrets_for(answer, references) is Ok {
        law_secrets_in_request_order(
            answer,
            references,
            secrets_for(answer, references)->Ok_0,
        );
        assert(references[0] == reference);
    }
}

/// A response payload that lists bytes is read as those bytes.
pub proof fn law_listed_bytes_are_read_back(bytes: Seq<u8>)
    ensures
        payload_bytes(
            Some(Json::List(bytes.map_values(|byte: u8| Json::Unsigned(byte as u64)))),
        ) == Ok::<Seq<u8>, ErrorView>(bytes),
{
    let elements = bytes.map_values(|byte: u8| Json::Unsigned(byte as u64));
    assert forall|i: int| 0 <= i < elements.len() implies is_byte(#[trigger] elements[i]) by {
        assert(elements[i] == Json::Unsigned(bytes[i] as u64));
    }
    assert forall|i: int| 0 <= i < bytes.len() implies bytes_listed(elements)[i]
        == #[trigger] bytes[i] by {
        let byte = bytes[i];
        assert(byte as u64 as u8 == byte) by (bit_vector);
    }
    assert(bytes_listed(elements) =~= bytes);
}

/// Both shapes of a response payload give the same bytes: a list of the bytes, and any text that
/// base64 decodes to them.
pub proof fn law_payload_shapes_agree(bytes: Seq<u8>, encoded: Seq<char>)
    requires
        base64_decoded(encoded) == Ok::<Seq<u8>, Seq<char>>(bytes),
    ensures
        payload_bytes(Some(Json::Text(encoded))) == payload_bytes(
            Some(Json::List(bytes.map_values(|byte: u8| Json::Unsigned(byte as u64)))),
        ),
{
    law_listed_bytes_are_read_back(bytes);
}

/// Whatever the desktop app says of a failed request, the error that comes of it is one of three,
/// so it shows nothing of what the app said that is in none of the three.
pub proof fn law_upstream_errors_are_sanitized(upstream: Seq<char>, detail: Seq<char>)
    requires
        !occurs_in(detail, ErrorView::AuthorizationDenied.rendered()),
        !occurs_in(detail, ErrorView::DesktopSessionExpired.rendered()),
        !occurs_in(detail, ErrorView::Unavailable("desktop SDK request failed"@).rendered()),
    ensures
        !occurs_in(detail, sdk_error(upstream).rendered()),
{
}

/// A reply that reports a failure gives one of the same three errors, whatever its payload holds.
pub proof fn law_failed_replies_are_sanitized(platform: Platform, reply: ReplyView)
    requires
        reported_failure(reply) is Some,
    ensures
        reply_bytes(platform, reply) matches Err(error) && {
            ||| error == ErrorView::AuthorizationDenied
            ||| error == ErrorView::DesktopSessionExpired
            ||| error == ErrorView::Unavailable("desktop SDK request failed"@)
        },
{
}

/// Whatever code a call of the library returns, the error that comes of it is one of three.
pub proof fn law_return_codes_are_sanitized(platform: Platform, code: i32)
    ensures
        ({
            let error = return_code_error(platform, code);
            ||| error == ErrorView::Unavailable("desktop app connection channel is closed"@)
            ||| error == ErrorView::Unavailable(
                "connection was unexpectedly dropped by the desktop app"@,
            )
            ||| error == ErrorView::Unavailable("desktop SDK IPC call failed"@)
        }),
{
}

/// A session is opened anew exactly where the first answer is that it has expired; then the client
/// is initialized with the same profile as at first.
pub proof fn law_expired_session_is_reopened(
    client: ClientView,
    invocation: InvocationView,
    reply: ReplyView,
)
    requires
        invocation.stage == Stage::Request,
    ensures
        client.resumed(invocation, reply).0 == client,
        client.resumed(invocation, reply).1 is Send <==> reply_bytes(client.platform, reply)
            == Err::<Seq<u8>, ErrorView>(ErrorView::DesktopSessionExpired),
        client.resumed(invocation, reply).1 matches ProgressView::Send(next) ==> {
            &&& next.stage == Stage::Reinitialize
            &&& next.message == init_message(client.profile)
            &&& next.name == invocation.name
            &&& next.parameters == invocation.parameters
        },
{
}

/// An invocation ends after three replies at most: the request, one new initialization, and one
/// retry. What is sent again is the same request, from the client as it is then.
pub proof fn law_one_retry(
    client: ClientView,
    name: Seq<char>,
    parameters: Json,
    first: ReplyView,
    second: ReplyView,
    third: ReplyView,
)
    ensures
        ({
            let (client1, progress1) = client.resumed(client.invoked(name, parameters), first);
            match progress1 {
                ProgressView::Done(_) => true,
                ProgressView::Send(reinitialize) => {
                    let (client2, progress2) = client1.resumed(reinitialize, second);
                    match progress2 {
                        ProgressView::Done(result) => result is Err,
                        ProgressView::Send(retry) => {
                            let (client3, progress3) = client2.resumed(retry, third);
                            &&& retry.message == client2.invoked(name, parameters).message
                            &&& client3 == client2
                            &&& progress3 is Done
                        },
                    }
                },
            }
        }),
{
}

/// A request that finds its session expired is answered all the same, where the session can be
/// opened anew and the retry is answered: the result is what that answer holds, and the client goes
/// on with its new number.
pub proof fn law_retry_is_answered(
    client: ClientView,
    name: Seq<char>,
    parameters: Json,
    expired: ReplyView,
    reopened: ReplyView,
    answered: ReplyView,
    client_id: u64,
)
    requires
        reply_bytes(client.platform, expired) == Err::<Seq<u8>, ErrorView>(
            ErrorView::DesktopSessionExpired,
        ),
        answered_id(reply_bytes(client.platform, reopened)) == Ok::<u64, ErrorView>(client_id),
    ensures
        ({
            let (client1, progress1) = client.resumed(client.invoked(name, parameters), expired);
            let (client2, progress2) = client1.resumed(progress1->Send_0, reopened);
            let (client3, progress3) = client2.resumed(progress2->Send_0, answered);
            &&& progress1 is Send
            &&& progress2 is Send
            &&& progress3 == ProgressView::Done(
                answered_document(reply_bytes(client.platform, answered)),
            )
            &&& client3 == ClientView { client_id, ..client }
        }),
{
}

/// No reply changes who a client speaks for, or over which transport; and its number changes only
/// where it was initialized anew.
pub proof fn law_client_keeps_its_profile(
    client: ClientView,
    invocation: InvocationView,
    reply: ReplyView,
)
    ensures
        ({
            let (next, progress) = client.resumed(invocation, reply);
            &&& next.profile == client.profile
            &&& next.platform == client.platform
            &&& next.client_id != client.client_id ==> invocation.stage == Stage::Reinitialize
                && progress is Send
        }),
{
}

} // verus!
