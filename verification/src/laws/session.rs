//! How a client comes to be and how its invocations go on, said of the calls that take it from one
//! step to the next.
use serde_json::Value;
use vstd::prelude::*;

use crate::client::{
    read_client_id, Client, ClientBuilder, Connecting, DesktopAuth,
    Initializing, Invocation, Progress, ProgressView, Stage,
};
use crate::encoding::base64_decoded;
use crate::error::{outcome, Error, ErrorView};
use crate::json::{json_of, json_parsed, u64_parsed, Json};
use crate::laws::replies::law_occurrence;
use crate::loader::Probing;
use crate::operation::{AnswerReader, Operation, Step};
use crate::platform::Host;
use crate::text::utf8_lossy;
use crate::transport::{payload_bytes, DesktopTransport, Reply};
use crate::validate::validate_metadata;

verus! {

/// A builder starts with the account of the authentication and with the name and the version of this
/// library; each setting changes itself alone, to what it is set to.
pub proof fn law_builders(
    auth: DesktopAuth,
    start: ClientBuilder,
    text: &str,
    named: ClientBuilder,
    versioned: ClientBuilder,
)
    requires
        call_ensures(Client::builder, (auth,), start),
        call_ensures(ClientBuilder::integration_name, (start, text), named),
        call_ensures(ClientBuilder::integration_version, (start, text), versioned),
    ensures
        start@.account == auth@,
        start@.integration_name == "onepassword-sdk-unofficial"@,
        start@.integration_version == "0.1.0"@,
        named@.account == start@.account,
        named@.integration_name == text@,
        named@.integration_version == start@.integration_version,
        versioned@.account == start@.account,
        versioned@.integration_name == start@.integration_name,
        versioned@.integration_version == text@,
{
}

/// A setting that is made again is what it was set to last, and the two settings do not touch each
/// other.
pub proof fn law_settings(
    builder: ClientBuilder,
    name: &str,
    version: &str,
    named: ClientBuilder,
    versioned: ClientBuilder,
    name_then_version: ClientBuilder,
    version_then_name: ClientBuilder,
    renamed: ClientBuilder,
    other: &str,
)
    requires
        call_ensures(ClientBuilder::integration_name, (builder, name), named),
        call_ensures(ClientBuilder::integration_version, (builder, version), versioned),
        call_ensures(ClientBuilder::integration_version, (named, version), name_then_version),
        call_ensures(ClientBuilder::integration_name, (versioned, name), version_then_name),
        call_ensures(ClientBuilder::integration_name, (named, other), renamed),
    ensures
        name_then_version@ == version_then_name@,
        name_then_version@.account == builder@.account,
        name_then_version@.integration_name == name@,
        name_then_version@.integration_version == version@,
        renamed@.integration_name == other@,
        renamed@.integration_version == builder@.integration_version,
{
}

/// A client is built where the name, then the version, then the platform is accepted; the first that
/// is not gives the error. It speaks for the account, under the name and the version, that were set,
/// from the host that was given.
pub proof fn law_building(
    builder: ClientBuilder,
    host: Host,
    has_home: bool,
    name_label: &str,
    name: &str,
    name_check: Result<(), Error>,
    version_label: &str,
    version: &str,
    version_check: Result<(), Error>,
    os: &str,
    loading: Result<Probing, Error>,
    result: Result<(Connecting, Probing), Error>,
)
    requires
        call_ensures(ClientBuilder::build, (builder, host, has_home), result),
        name_label@ == "integration name"@,
        name@ == builder@.integration_name,
        call_ensures(validate_metadata, (name_label, name), name_check),
        version_label@ == "integration version"@,
        version@ == builder@.integration_version,
        call_ensures(validate_metadata, (version_label, version), version_check),
        os@ == host.os@,
        call_ensures(DesktopTransport::load, (os, has_home), loading),
    ensures
        match (name_check, version_check, loading) {
            (Err(refusal), _, _) => result matches Err(error) && error@ == refusal@,
            (Ok(_), Err(refusal), _) => result matches Err(error) && error@ == refusal@,
            (Ok(_), Ok(_), Err(refusal)) => result matches Err(error) && error@ == refusal@,
            (Ok(_), Ok(_), Ok(begun)) => {
                &&& result matches Ok((connecting, probing))
                &&& probing@ == begun@
                &&& connecting@.account == builder@.account
                &&& connecting@.integration_name == builder@.integration_name
                &&& connecting@.integration_version == builder@.integration_version
                &&& connecting@.host.os == host.os@
                &&& connecting@.host.architecture == host.architecture@
            },
        },
{
    assert(outcome(name_check) is Ok <==> name_check is Ok);
    assert(outcome(version_check) is Ok <==> version_check is Ok);
}

/// A client is there once its number is known from the reply: it has that number, and all else of it
/// is as it was. A reply that gives no number gives its error.
pub proof fn law_initialized(
    initializing: Initializing,
    reply: Reply,
    transport: &DesktopTransport,
    answer: Result<Vec<u8>, Error>,
    number: Result<u64, Error>,
    result: Result<Client, Error>,
)
    requires
        call_ensures(Initializing::finish, (initializing, reply), result),
        transport.platform == initializing@.platform,
        call_ensures(DesktopTransport::receive, (transport, reply), answer),
        call_ensures(read_client_id, (answer,), number),
    ensures
        match number {
            Ok(client_id) => {
                &&& result matches Ok(client)
                &&& client@.client_id == client_id
                &&& client@.profile == initializing@.profile
                &&& client@.platform == initializing@.platform
            },
            Err(failure) => result matches Err(error) && error@ == failure@,
        },
{
}

/// A client that is given its number has that number, and all else of it is as it was.
pub proof fn law_numbered(initializing: Initializing, client_id: u64, client: Client)
    requires
        call_ensures(Initializing::initialized, (initializing, client_id), client),
    ensures
        client@.client_id == client_id,
        client@.profile == initializing@.profile,
        client@.platform == initializing@.platform,
{
}

/// What comes next looks the same exactly where it is the same invocation, the same document or the
/// same error.
pub proof fn law_progress_is_told_apart(progress: Progress)
    ensures
        match progress {
            Progress::Send(invocation) => progress@ == ProgressView::Send(invocation@),
            Progress::Done(Ok(value)) => progress@ == ProgressView::Done(
                Ok::<Json, ErrorView>(json_of(value)),
            ),
            Progress::Done(Err(error)) => progress@ == ProgressView::Done(
                Err::<Json, ErrorView>(error@),
            ),
        },
{
}

/// A first request that is answered ends with the document of the answer, or with its error. Only
/// the error that the session has expired leads on: to the same initialization as at first, with the
/// request kept as it is. The client is the same in any case.
pub proof fn law_first_answer(
    client: &mut Client,
    invocation: Invocation,
    answer: Result<Vec<u8>, Error>,
    progress: Progress,
    connecting: Connecting,
    transport: DesktopTransport,
    initializing: Initializing,
)
    requires
        call_ensures(Client::answered, (client, invocation, answer), progress),
        invocation@.stage == Stage::Request,
        connecting@ == old(client)@.profile,
        call_ensures(
            Connecting::loaded,
            (connecting, transport),
            Ok::<Initializing, Error>(initializing),
        ),
    ensures
        final(client)@ == old(client)@,
        match answer {
            Ok(bytes) => match json_parsed(bytes@) {
                Ok(document) => progress matches Progress::Done(Ok(value)) && json_of(value)
                    == document,
                Err(reason) => progress matches Progress::Done(Err(Error::Protocol(message)))
                    && message@ == reason,
            },
            Err(Error::DesktopSessionExpired) => {
                &&& progress matches Progress::Send(next)
                &&& next@.message == initializing@.message
                &&& next@.stage == Stage::Reinitialize
                &&& next@.name == invocation@.name
                &&& next@.parameters == invocation@.parameters
            },
            Err(failure) => progress matches Progress::Done(Err(error)) && error@ == failure@,
        },
{
}

/// A client that was initialized anew has the number that it was given, and nothing else of it has
/// changed; what is sent next is the same request as at first, from the client as it is now. Where
/// no number came, the invocation ends with the error of that and the client is the same.
pub proof fn law_answer_to_a_new_initialization(
    client: &mut Client,
    invocation: Invocation,
    answer: Result<Vec<u8>, Error>,
    progress: Progress,
    renewed: &Client,
    name: &str,
    parameters: Value,
    again: Invocation,
)
    requires
        call_ensures(Client::answered, (client, invocation, answer), progress),
        invocation@.stage == Stage::Reinitialize,
        renewed@ == final(client)@,
        name@ == invocation@.name,
        json_of(parameters) == invocation@.parameters,
        call_ensures(Client::invoke, (renewed, name, parameters), Ok::<Invocation, Error>(again)),
    ensures
        final(client)@.profile == old(client)@.profile,
        final(client)@.platform == old(client)@.platform,
        match answer {
            Ok(bytes) => match u64_parsed(bytes@) {
                Ok(client_id) => {
                    &&& final(client)@.client_id == client_id
                    &&& progress matches Progress::Send(next)
                    &&& next@.message == again@.message
                    &&& next@.stage == Stage::Retry
                    &&& next@.name == invocation@.name
                    &&& next@.parameters == invocation@.parameters
                },
                Err(reason) => {
                    &&& final(client)@ == old(client)@
                    &&& progress matches Progress::Done(Err(Error::Protocol(message)))
                    &&& message@ == reason
                },
            },
            Err(failure) => {
                &&& final(client)@ == old(client)@
                &&& progress matches Progress::Done(Err(error))
                &&& error@ == failure@
            },
        },
{
}

/// A second request ends with its answer, whatever that is, and the client is the same.
pub proof fn law_second_answer(
    client: &mut Client,
    invocation: Invocation,
    answer: Result<Vec<u8>, Error>,
    progress: Progress,
)
    requires
        call_ensures(Client::answered, (client, invocation, answer), progress),
        invocation@.stage == Stage::Retry,
    ensures
        final(client)@ == old(client)@,
        match answer {
            Ok(bytes) => match json_parsed(bytes@) {
                Ok(document) => progress matches Progress::Done(Ok(value)) && json_of(value)
                    == document,
                Err(reason) => progress matches Progress::Done(Err(Error::Protocol(message)))
                    && message@ == reason,
            },
            Err(failure) => progress matches Progress::Done(Err(error)) && error@ == failure@,
        },
{
}

/// A session that is opened anew leads to the same request as at first, from the client with its new
/// number.
pub proof fn law_reopened(
    client: &mut Client,
    invocation: Invocation,
    client_id: u64,
    progress: Progress,
    renewed: &Client,
    name: &str,
    parameters: Value,
    again: Invocation,
)
    requires
        call_ensures(Client::reinitialized, (client, invocation, client_id), progress),
        renewed@ == final(client)@,
        name@ == invocation@.name,
        json_of(parameters) == invocation@.parameters,
        call_ensures(Client::invoke, (renewed, name, parameters), Ok::<Invocation, Error>(again)),
    ensures
        final(client)@.client_id == client_id,
        final(client)@.profile == old(client)@.profile,
        final(client)@.platform == old(client)@.platform,
        progress matches Progress::Send(next) && {
            &&& next@.message == again@.message
            &&& next@.stage == Stage::Retry
            &&& next@.name == invocation@.name
            &&& next@.parameters == invocation@.parameters
        },
{
}

/// To go on with a reply is to go on with what the reply is read as.
pub proof fn law_resumed(
    client: &mut Client,
    twin: &mut Client,
    invocation: Invocation,
    reply: Reply,
    transport: &DesktopTransport,
    answer: Result<Vec<u8>, Error>,
    progress: Progress,
    other: Progress,
)
    requires
        old(client)@ == old(twin)@,
        call_ensures(Client::resume, (client, invocation, reply), progress),
        transport.platform == old(client)@.platform,
        call_ensures(DesktopTransport::receive, (transport, reply), answer),
        call_ensures(Client::answered, (twin, invocation, answer), other),
    ensures
        final(client)@ == final(twin)@,
        match (progress, other) {
            (Progress::Send(next), Progress::Send(same)) => next@ == same@,
            (Progress::Done(Ok(value)), Progress::Done(Ok(same))) => json_of(value) == json_of(same),
            (Progress::Done(Err(error)), Progress::Done(Err(same))) => error@ == same@,
            _ => false,
        },
{
}

/// A failed reply to a first request in whose text a marker of an expired session stands, whatever
/// is before and after it, is followed by the same initialization as at first, unless the text says
/// that the authorization was denied.
pub proof fn law_expired_replies_reopen_the_session(
    client: &mut Client,
    invocation: Invocation,
    reply: Reply,
    output: Vec<u8>,
    response: Map<Seq<char>, Json>,
    bytes: Seq<u8>,
    before: Seq<char>,
    marker: Seq<char>,
    after: Seq<char>,
    progress: Progress,
    connecting: Connecting,
    transport: DesktopTransport,
    initializing: Initializing,
)
    requires
        call_ensures(Client::resume, (client, invocation, reply), progress),
        invocation@.stage == Stage::Request,
        reply.code == 0,
        reply.output == Some(output),
        json_parsed(output@) == Ok::<Json, Seq<char>>(Json::Object(response)),
        !response.contains_key("success"@) || response["success"@] != Json::Bool(true),
        response.contains_key("payload"@),
        (response["payload"@] matches Json::Text(encoded) && base64_decoded(encoded) == Ok::<
            Seq<u8>,
            Seq<char>,
        >(bytes)) || (response["payload"@] matches Json::List(elements) && elements.len()
            == bytes.len() && forall|i: int|
            0 <= i < bytes.len() ==> #[trigger] elements[i] == Json::Unsigned(bytes[i] as u64)),
        marker == "DesktopSessionExpired"@ || marker == "desktop session expired"@,
        utf8_lossy(bytes) == before + marker + after,
        forall|b: Seq<char>, a: Seq<char>|
            utf8_lossy(bytes) != #[trigger] (b + "Denied authorization"@ + a),
        connecting@ == old(client)@.profile,
        call_ensures(
            Connecting::loaded,
            (connecting, transport),
            Ok::<Initializing, Error>(initializing),
        ),
    ensures
        final(client)@ == old(client)@,
        progress matches Progress::Send(next) && {
            &&& next@.message == initializing@.message
            &&& next@.stage == Stage::Reinitialize
            &&& next@.name == invocation@.name
            &&& next@.parameters == invocation@.parameters
        },
{
    let document = Json::Object(response);
    assert(document.member("payload"@) == Some(response["payload"@]));
    if response["payload"@] is List {
        crate::laws::replies::lemma_listed(response["payload"@]->List_0, bytes);
    }
    assert(payload_bytes(document.member("payload"@)) == Ok::<Seq<u8>, ErrorView>(bytes));
    assert(document.member("success"@) != Some(Json::Bool(true)));
    law_occurrence("Denied authorization"@, utf8_lossy(bytes));
    law_occurrence(marker, utf8_lossy(bytes));
}

/// An operation sends what its invocation sends, and is made of what it is taken apart into.
pub proof fn law_parts_of_an_operation<R: AnswerReader>(
    invocation: Invocation,
    reader: R,
    operation: Operation<R>,
    message: &[u8],
    other: &[u8],
    parts: (Invocation, R),
)
    requires
        call_ensures(Operation::<R>::new, (invocation, reader), operation),
        call_ensures(Operation::<R>::message, (&operation,), message),
        call_ensures(Invocation::message, (&invocation,), other),
        call_ensures(Operation::<R>::into_parts, (operation,), parts),
    ensures
        message@ == other@,
        message@ == invocation@.message,
        parts.0@ == invocation@,
        parts.1 == reader,
{
}

/// The first message of a client is the one that it was made with, and a copy of an authentication
/// is for the same account.
pub proof fn law_first_messages_and_copies(
    initializing: Initializing,
    message: &[u8],
    auth: DesktopAuth,
    copy: DesktopAuth,
    account: &str,
    copied: &str,
)
    requires
        call_ensures(Initializing::message, (&initializing,), message),
        call_ensures(<DesktopAuth as Clone>::clone, (&auth,), copy),
        call_ensures(DesktopAuth::account, (&auth,), account),
        call_ensures(DesktopAuth::account, (&copy,), copied),
    ensures
        message@ == initializing@.message,
        copied@ == account@,
{
}

/// An operation goes on as its invocation does: it sends what the invocation sends, ends with the
/// same error, and reads the document with which the invocation ends.
pub proof fn law_operations<R: AnswerReader>(
    client: &mut Client,
    twin: &mut Client,
    operation: Operation<R>,
    invocation: Invocation,
    reply: Reply,
    step: Step<R>,
    progress: Progress,
)
    requires
        old(client)@ == old(twin)@,
        operation@ == invocation@,
        call_ensures(Operation::<R>::resume, (operation, client, reply), step),
        call_ensures(Client::resume, (twin, invocation, reply), progress),
    ensures
        final(client)@ == final(twin)@,
        match progress {
            Progress::Send(next) => {
                &&& step matches Step::Send(going)
                &&& going@ == next@
                &&& going.reader() == operation.reader()
            },
            Progress::Done(Ok(value)) => {
                &&& step matches Step::Done(result)
                &&& operation.reader().reads(json_of(value), result)
            },
            Progress::Done(Err(failure)) => {
                &&& step matches Step::Done(Err(error))
                &&& error@ == failure@
            },
        },
{
}

/// The same holds of an operation whose invocation has made its progress already.
pub proof fn law_progressed<R: AnswerReader>(reader: R, progress: Progress, step: Step<R>)
    requires
        call_ensures(Operation::<R>::progressed, (reader, progress), step),
    ensures
        match progress {
            Progress::Send(next) => {
                &&& step matches Step::Send(going)
                &&& going@ == next@
                &&& going.reader() == reader
            },
            Progress::Done(Ok(value)) => {
                &&& step matches Step::Done(result)
                &&& reader.reads(json_of(value), result)
            },
            Progress::Done(Err(failure)) => {
                &&& step matches Step::Done(Err(error))
                &&& error@ == failure@
            },
        },
{
}

} // verus!
