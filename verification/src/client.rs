//! The client: how it is built and authenticated, how it invokes the desktop app, and how it is
//! released.
//!
//! Nothing here talks to the desktop app. A step that needs it gives the bytes of a message; the
//! program around this library sends them and hands the reply to the next step.
use serde_json::Value;
use vstd::prelude::*;

use crate::error::{outcome, protocol_error, Error, ErrorView};
use crate::items::Items;
use crate::json;
use crate::json::{json_bytes, json_of, u64_parsed, Json};
use crate::loader::Probing;
use crate::platform::{
    candidate_places, os_name, platform_named, sdk_os_name, Host, HostView, Platform,
};
use crate::secrets::Secrets;
use crate::transport::{
    bytes_document, failure_text_is_encoded, message_document, reply_bytes, DesktopTransport, Reply,
    ReplyView,
};
use crate::validate::{account_verdict, metadata_verdict, validate_account, validate_metadata};
use crate::vaults::Vaults;

verus! {

/// The build of the SDK core that the messages are compatible with.
pub const SDK_CORE_BUILD: &'static str = "0040102";

/// The name of this library.
pub const LIBRARY_NAME: &'static str = "onepassword-sdk-unofficial";

/// The version of this library.
pub const LIBRARY_VERSION: &'static str = "0.1.0";

/// Desktop-app authentication configuration: an account name that has passed its check.
#[derive(Debug, PartialEq, Eq)]
pub struct DesktopAuth {
    account: String,
}

/// Builder for a persistent SDK client.
pub struct ClientBuilder {
    auth: DesktopAuth,
    integration_name: String,
    integration_version: String,
}

/// Who a client speaks for, and from where.
struct Profile {
    auth: DesktopAuth,
    integration_name: String,
    integration_version: String,
    host: Host,
}

/// A client whose transport is being loaded.
pub struct Connecting {
    profile: Profile,
}

/// A client whose first message is to be sent.
pub struct Initializing {
    profile: Profile,
    transport: DesktopTransport,
    message: Vec<u8>,
}

/// Persistent 1Password SDK client.
pub struct Client {
    profile: Profile,
    client_id: u64,
    transport: DesktopTransport,
}

/// How far an invocation has come.
#[derive(Clone, Copy, Debug, PartialEq, Eq, Structural)]
pub enum Stage {
    /// The request is to be sent.
    Request,
    /// The session had expired: the client is to be initialized anew.
    Reinitialize,
    /// The request is to be sent for the second and last time.
    Retry,
}

/// An invocation of the desktop app, with the message that is to be sent next.
pub struct Invocation {
    name: String,
    parameters: Value,
    stage: Stage,
    message: Vec<u8>,
}

/// What comes after a reply: another message, or the end.
pub enum Progress {
    Send(Invocation),
    Done(Result<Value, Error>),
}

/// A builder by its texts.
pub struct BuilderView {
    pub account: Seq<char>,
    pub integration_name: Seq<char>,
    pub integration_version: Seq<char>,
}

/// Who a client speaks for, and from where.
pub struct ProfileView {
    pub account: Seq<char>,
    pub integration_name: Seq<char>,
    pub integration_version: Seq<char>,
    pub host: HostView,
}

/// A client whose first message is to be sent.
pub struct InitializingView {
    pub profile: ProfileView,
    pub platform: Platform,
    pub message: Seq<u8>,
}

/// A client.
pub struct ClientView {
    pub profile: ProfileView,
    pub client_id: u64,
    pub platform: Platform,
}

/// An invocation.
pub struct InvocationView {
    pub name: Seq<char>,
    pub parameters: Json,
    pub stage: Stage,
    pub message: Seq<u8>,
}

/// What comes after a reply.
pub enum ProgressView {
    Send(InvocationView),
    Done(Result<Json, ErrorView>),
}

impl View for DesktopAuth {
    type V = Seq<char>;

    closed spec fn view(&self) -> Seq<char> {
        self.account@
    }
}

impl View for ClientBuilder {
    type V = BuilderView;

    closed spec fn view(&self) -> BuilderView {
        BuilderView {
            account: self.auth@,
            integration_name: self.integration_name@,
            integration_version: self.integration_version@,
        }
    }
}

impl View for Profile {
    type V = ProfileView;

    closed spec fn view(&self) -> ProfileView {
        ProfileView {
            account: self.auth@,
            integration_name: self.integration_name@,
            integration_version: self.integration_version@,
            host: self.host@,
        }
    }
}

impl View for Connecting {
    type V = ProfileView;

    closed spec fn view(&self) -> ProfileView {
        self.profile@
    }
}

impl View for Initializing {
    type V = InitializingView;

    closed spec fn view(&self) -> InitializingView {
        InitializingView {
            profile: self.profile@,
            platform: self.transport.platform,
            message: self.message@,
        }
    }
}

impl View for Client {
    type V = ClientView;

    closed spec fn view(&self) -> ClientView {
        ClientView {
            profile: self.profile@,
            client_id: self.client_id,
            platform: self.transport.platform,
        }
    }
}

impl View for Invocation {
    type V = InvocationView;

    closed spec fn view(&self) -> InvocationView {
        InvocationView {
            name: self.name@,
            parameters: json_of(self.parameters),
            stage: self.stage,
            message: self.message@,
        }
    }
}

impl View for Progress {
    type V = ProgressView;

    open spec fn view(&self) -> ProgressView {
        match self {
            Progress::Send(invocation) => ProgressView::Send(invocation@),
            Progress::Done(Ok(value)) => ProgressView::Done(Ok(json_of(*value))),
            Progress::Done(Err(error)) => ProgressView::Done(Err(error@)),
        }
    }
}

/// The document that initializes a client.
pub open spec fn init_document(profile: ProfileView) -> Json {
    Json::Object(
        map![
            "serviceAccountToken"@ => Json::Text(""@),
            "programmingLanguage"@ => Json::Text("Rust"@),
            "sdkVersion"@ => Json::Text(SDK_CORE_BUILD@),
            "integrationName"@ => Json::Text(profile.integration_name),
            "integrationVersion"@ => Json::Text(profile.integration_version),
            "requestLibraryName"@ => Json::Text(LIBRARY_NAME@),
            "requestLibraryVersion"@ => Json::Text(LIBRARY_VERSION@),
            "os"@ => Json::Text(os_name(profile.host.os)),
            "osVersion"@ => Json::Text("0.0.0"@),
            "architecture"@ => Json::Text(profile.host.architecture),
            "account_name"@ => Json::Text(profile.account),
        ],
    )
}

/// The document that asks an initialized client to do something.
pub open spec fn invocation_document(client_id: u64, name: Seq<char>, parameters: Json) -> Json {
    Json::Object(
        map![
            "invocation"@ => Json::Object(
                map![
                    "clientId"@ => Json::Unsigned(client_id),
                    "parameters"@ => Json::Object(
                        map!["name"@ => Json::Text(name), "parameters"@ => parameters],
                    ),
                ],
            ),
        ],
    )
}

/// The message of the kind, from the account, whose payload is the document.
pub open spec fn message_with(account: Seq<char>, kind: Seq<char>, document: Json) -> Seq<u8> {
    json_bytes(message_document(account, kind, json_bytes(document)))
}

/// The message that initializes a client.
pub open spec fn init_message(profile: ProfileView) -> Seq<u8> {
    message_with(profile.account, "init_client"@, init_document(profile))
}

/// The message that asks a client to do something.
pub open spec fn invocation_message(client: ClientView, name: Seq<char>, parameters: Json) -> Seq<
    u8,
> {
    message_with(
        client.profile.account,
        "invoke"@,
        invocation_document(client.client_id, name, parameters),
    )
}

/// The message that releases a client.
pub open spec fn release_message(client: ClientView) -> Seq<u8> {
    message_with(
        client.profile.account,
        "release_client"@,
        Json::Unsigned(client.client_id),
    )
}

/// The number of the client that the answer to an initialization gives.
pub open spec fn answered_id(answer: Result<Seq<u8>, ErrorView>) -> Result<u64, ErrorView> {
    match answer {
        Ok(bytes) => match u64_parsed(bytes) {
            Ok(client_id) => Ok(client_id),
            Err(error) => Err(ErrorView::Protocol(error)),
        },
        Err(error) => Err(error),
    }
}

/// The document that the answer to a request holds.
pub open spec fn answered_document(answer: Result<Seq<u8>, ErrorView>) -> Result<Json, ErrorView> {
    match answer {
        Ok(bytes) => bytes_document(bytes),
        Err(error) => Err(error),
    }
}

impl ClientView {
    /// An invocation that is about to begin.
    pub open spec fn invoked(self, name: Seq<char>, parameters: Json) -> InvocationView {
        InvocationView {
            name,
            parameters,
            stage: Stage::Request,
            message: invocation_message(self, name, parameters),
        }
    }

    /// The client and what comes next in an invocation once the session has been opened anew.
    pub open spec fn reinitialized(self, invocation: InvocationView, client_id: u64) -> (
        ClientView,
        ProgressView,
    ) {
        let client = ClientView { client_id, ..self };
        (
            client,
            ProgressView::Send(
                InvocationView {
                    stage: Stage::Retry,
                    message: invocation_message(client, invocation.name, invocation.parameters),
                    ..invocation
                },
            ),
        )
    }

    /// The client and what comes next in an invocation after an answer. An answer that the session
    /// has expired leads to one new initialization, and that to one retry.
    pub open spec fn answered(
        self,
        invocation: InvocationView,
        answer: Result<Seq<u8>, ErrorView>,
    ) -> (ClientView, ProgressView) {
        match invocation.stage {
            Stage::Request => (
                self,
                match answer {
                    Err(ErrorView::DesktopSessionExpired) => ProgressView::Send(
                        InvocationView {
                            stage: Stage::Reinitialize,
                            message: init_message(self.profile),
                            ..invocation
                        },
                    ),
                    _ => ProgressView::Done(answered_document(answer)),
                },
            ),
            Stage::Reinitialize => match answered_id(answer) {
                Ok(client_id) => self.reinitialized(invocation, client_id),
                Err(error) => (self, ProgressView::Done(Err(error))),
            },
            Stage::Retry => (self, ProgressView::Done(answered_document(answer))),
        }
    }

    /// The client and what comes next in an invocation after a reply.
    pub open spec fn resumed(self, invocation: InvocationView, reply: ReplyView) -> (
        ClientView,
        ProgressView,
    ) {
        self.answered(invocation, reply_bytes(self.platform, reply))
    }
}

impl DesktopAuth {
    #[verifier::type_invariant]
    spec fn well_formed(self) -> bool {
        account_verdict(self.account@) == Ok::<(), ErrorView>(())
    }

    /// Authenticate through a signed-in 1Password desktop app account.
    pub fn new(account: &str) -> (result: Result<DesktopAuth, Error>)
        ensures
            match result {
                Ok(auth) => {
                    &&& account_verdict(account@) == Ok::<(), ErrorView>(())
                    &&& auth@ == account@
                },
                Err(error) => account_verdict(account@) == Err::<(), ErrorView>(error@),
            },
    {
        validate_account(account)?;
        Ok(DesktopAuth { account: account.to_owned() })
    }

    /// Account name or UUID passed to the desktop SDK.
    pub fn account(&self) -> (account: &str)
        ensures
            account@ == self@,
            account_verdict(account@) == Ok::<(), ErrorView>(()),
    {
        proof {
            use_type_invariant(self);
        }
        self.account.as_str()
    }
}

impl Clone for DesktopAuth {
    fn clone(&self) -> (copy: DesktopAuth)
        ensures
            copy@ == self@,
    {
        proof {
            use_type_invariant(self);
        }
        DesktopAuth { account: self.account.clone() }
    }
}

impl ClientBuilder {
    /// Set the integration name shown to 1Password.
    pub fn integration_name(self, name: &str) -> (builder: ClientBuilder)
        ensures
            builder@ == (BuilderView { integration_name: name@, ..self@ }),
    {
        ClientBuilder { integration_name: name.to_owned(), ..self }
    }

    /// Set the integration version shown to 1Password.
    pub fn integration_version(self, version: &str) -> (builder: ClientBuilder)
        ensures
            builder@ == (BuilderView { integration_version: version@, ..self@ }),
    {
        ClientBuilder { integration_version: version.to_owned(), ..self }
    }

    /// Begin to create and authenticate a persistent client on this host.
    pub fn build(self, host: Host, has_home: bool) -> (result: Result<
        (Connecting, Probing),
        Error,
    >)
        ensures
            match metadata_verdict("integration name"@, self@.integration_name) {
                Err(invalid) => result matches Err(error) && error@ == invalid,
                Ok(_) => match metadata_verdict(
                    "integration version"@,
                    self@.integration_version,
                ) {
                    Err(invalid) => result matches Err(error) && error@ == invalid,
                    Ok(_) => connects(
                        ProfileView {
                            account: self@.account,
                            integration_name: self@.integration_name,
                            integration_version: self@.integration_version,
                            host: host@,
                        },
                        has_home,
                        result,
                    ),
                },
            },
    {
        validate_metadata("integration name", self.integration_name.as_str())?;
        validate_metadata("integration version", self.integration_version.as_str())?;
        Client::connect(
            self.auth,
            self.integration_name,
            self.integration_version,
            host,
            has_home,
        )
    }
}

/// Whether a result is that of beginning to connect with the profile: the search for the library,
/// at its first place, or an error where the platform has no transport.
pub open spec fn connects(
    profile: ProfileView,
    has_home: bool,
    result: Result<(Connecting, Probing), Error>,
) -> bool {
    match (result, platform_named(profile.host.os)) {
        (Ok((connecting, probing)), Ok(platform)) => {
            &&& connecting@ == profile
            &&& probing@.platform == platform
            &&& probing@.places == candidate_places(platform, has_home)
            &&& probing@.index == 0
            &&& probing@.is_at_place()
        },
        (Err(error), Err(unsupported)) => error@ == unsupported,
        _ => false,
    }
}

/// The document that initializes a client, as a value.
fn init_config(profile: &Profile) -> (config: Value)
    ensures
        json_of(config) == init_document(profile@),
{
    let mut members = json::no_members();
    json::insert(&mut members, "serviceAccountToken", json::text(""));
    json::insert(&mut members, "programmingLanguage", json::text("Rust"));
    json::insert(&mut members, "sdkVersion", json::text(SDK_CORE_BUILD));
    json::insert(
        &mut members,
        "integrationName",
        json::text(profile.integration_name.as_str()),
    );
    json::insert(
        &mut members,
        "integrationVersion",
        json::text(profile.integration_version.as_str()),
    );
    json::insert(&mut members, "requestLibraryName", json::text(LIBRARY_NAME));
    json::insert(&mut members, "requestLibraryVersion", json::text(LIBRARY_VERSION));
    json::insert(
        &mut members,
        "os",
        json::text(sdk_os_name(profile.host.os.as_str()).as_str()),
    );
    json::insert(&mut members, "osVersion", json::text("0.0.0"));
    json::insert(
        &mut members,
        "architecture",
        json::text(profile.host.architecture.as_str()),
    );
    json::insert(&mut members, "account_name", json::text(profile.auth.account()));
    json::object(members)
}

/// The message of the kind, from the account, whose payload is the document.
fn send_document(
    transport: &DesktopTransport,
    auth: &DesktopAuth,
    kind: &str,
    document: &Value,
) -> (result: Result<Vec<u8>, Error>)
    ensures
        result matches Ok(message) && message@ == message_with(auth@, kind@, json_of(*document)),
{
    match json::to_vec(document) {
        Ok(payload) => transport.call(auth.account(), kind, payload.as_slice()),
        Err(error) => Err(protocol_error(error)),
    }
}

/// The message that initializes a client.
fn init_client(transport: &DesktopTransport, profile: &Profile) -> (result: Result<
    Vec<u8>,
    Error,
>)
    ensures
        result matches Ok(message) && message@ == init_message(profile@),
{
    send_document(transport, &profile.auth, "init_client", &init_config(profile))
}

/// The number of the client that the answer to an initialization gives.
pub fn read_client_id(answer: Result<Vec<u8>, Error>) -> (result: Result<u64, Error>)
    ensures
        match result {
            Ok(client_id) => answered_id(outcome(answer)) == Ok::<u64, ErrorView>(client_id),
            Err(error) => answered_id(outcome(answer)) == Err::<u64, ErrorView>(error@),
        },
{
    let bytes = answer?;
    match json::u64_from_slice(bytes.as_slice()) {
        Ok(client_id) => Ok(client_id),
        Err(error) => Err(protocol_error(error)),
    }
}

/// The value that the answer to a request holds.
pub fn read_answer(answer: Result<Vec<u8>, Error>) -> (result: Result<Value, Error>)
    ensures
        match result {
            Ok(value) => answered_document(outcome(answer)) == Ok::<Json, ErrorView>(
                json_of(value),
            ),
            Err(error) => answered_document(outcome(answer)) == Err::<Json, ErrorView>(error@),
        },
{
    let bytes = answer?;
    match json::from_slice(bytes.as_slice()) {
        Ok(value) => Ok(value),
        Err(error) => Err(protocol_error(error)),
    }
}

impl Connecting {
    /// Goes on, now that the transport is loaded.
    pub fn loaded(self, transport: DesktopTransport) -> (result: Result<Initializing, Error>)
        ensures
            result matches Ok(initializing) && initializing@ == (InitializingView {
                profile: self@,
                platform: transport.platform,
                message: init_message(self@),
            }),
    {
        let message = init_client(&transport, &self.profile)?;
        Ok(Initializing { profile: self.profile, transport, message })
    }
}

impl Initializing {
    /// The message to send.
    pub fn message(&self) -> (message: &[u8])
        ensures
            message@ == self@.message,
    {
        self.message.as_slice()
    }

    /// The client, now that its number is known.
    pub fn initialized(self, client_id: u64) -> (client: Client)
        ensures
            client@ == (ClientView {
                profile: self@.profile,
                client_id,
                platform: self@.platform,
            }),
    {
        Client { profile: self.profile, client_id, transport: self.transport }
    }

    /// The client, now that the reply to the message is there.
    pub fn finish(self, reply: Reply) -> (result: Result<Client, Error>)
        ensures
            match (result, answered_id(reply_bytes(self@.platform, reply@))) {
                (Ok(client), Ok(client_id)) => client@ == (ClientView {
                    profile: self@.profile,
                    client_id,
                    platform: self@.platform,
                }),
                (Err(error), Err(failure)) => error@ == failure,
                _ => false,
            },
    {
        let client_id: u64 = read_client_id(self.transport.receive(reply))?;
        Ok(self.initialized(client_id))
    }
}

impl Client {
    /// Start building a client authenticated by the 1Password desktop app.
    pub fn builder(auth: DesktopAuth) -> (builder: ClientBuilder)
        ensures
            builder@ == (BuilderView {
                account: auth@,
                integration_name: LIBRARY_NAME@,
                integration_version: LIBRARY_VERSION@,
            }),
    {
        ClientBuilder {
            auth,
            integration_name: LIBRARY_NAME.to_owned(),
            integration_version: LIBRARY_VERSION.to_owned(),
        }
    }

    /// Begin to connect: find the library first.
    fn connect(
        auth: DesktopAuth,
        integration_name: String,
        integration_version: String,
        host: Host,
        has_home: bool,
    ) -> (result: Result<(Connecting, Probing), Error>)
        ensures
            connects(
                ProfileView {
                    account: auth@,
                    integration_name: integration_name@,
                    integration_version: integration_version@,
                    host: host@,
                },
                has_home,
                result,
            ),
    {
        let probing = DesktopTransport::load(host.os.as_str(), has_home)?;
        let profile = Profile { auth, integration_name, integration_version, host };
        Ok((Connecting { profile }, probing))
    }

    /// Access the secrets API.
    pub fn secrets(&self) -> (secrets: Secrets<'_>)
        ensures
            secrets@ == self@,
    {
        Secrets::of(self)
    }

    /// Access the item-management API.
    pub fn items(&self) -> (items: Items<'_>)
        ensures
            items@ == self@,
    {
        Items::of(self)
    }

    /// Access the read-only vaults API.
    pub fn vaults(&self) -> (vaults: Vaults<'_>)
        ensures
            vaults@ == self@,
    {
        Vaults::of(self)
    }

    /// The message that asks this client to do something.
    fn request(&self, name: &str, parameters: &Value) -> (result: Result<Vec<u8>, Error>)
        ensures
            result matches Ok(message) && message@ == invocation_message(
                self@,
                name@,
                json_of(*parameters),
            ),
    {
        let mut call = json::no_members();
        json::insert(&mut call, "name", json::text(name));
        json::insert(&mut call, "parameters", json::duplicate(parameters));
        let mut invocation = json::no_members();
        json::insert(&mut invocation, "clientId", json::number(self.client_id));
        json::insert(&mut invocation, "parameters", json::object(call));
        let mut request = json::no_members();
        json::insert(&mut request, "invocation", json::object(invocation));
        send_document(&self.transport, &self.profile.auth, "invoke", &json::object(request))
    }

    /// Begins an invocation.
    pub fn invoke(&self, name: &str, parameters: Value) -> (result: Result<Invocation, Error>)
        ensures
            result matches Ok(invocation) && invocation@ == self@.invoked(
                name@,
                json_of(parameters),
            ),
    {
        let message = self.request(name, &parameters)?;
        Ok(Invocation { name: name.to_owned(), parameters, stage: Stage::Request, message })
    }

    /// Goes on with an invocation, now that the session has been opened anew.
    pub fn reinitialized(&mut self, invocation: Invocation, client_id: u64) -> (progress: Progress)
        ensures
            (final(self)@, progress@) == old(self)@.reinitialized(invocation@, client_id),
    {
        self.client_id = client_id;
        match self.request(invocation.name.as_str(), &invocation.parameters) {
            Ok(message) => Progress::Send(
                Invocation { stage: Stage::Retry, message, ..invocation },
            ),
            Err(error) => Progress::Done(Err(error)),
        }
    }

    /// Goes on with an invocation after an answer.
    pub fn answered(
        &mut self,
        invocation: Invocation,
        answer: Result<Vec<u8>, Error>,
    ) -> (progress: Progress)
        ensures
            (final(self)@, progress@) == old(self)@.answered(invocation@, outcome(answer)),
    {
        match invocation.stage {
            Stage::Request => match answer {
                Err(Error::DesktopSessionExpired) => match init_client(
                    &self.transport,
                    &self.profile,
                ) {
                    Ok(message) => Progress::Send(
                        Invocation { stage: Stage::Reinitialize, message, ..invocation },
                    ),
                    Err(error) => Progress::Done(Err(error)),
                },
                answer => Progress::Done(read_answer(answer)),
            },
            Stage::Reinitialize => match read_client_id(answer) {
                Ok(client_id) => self.reinitialized(invocation, client_id),
                Err(error) => Progress::Done(Err(error)),
            },
            Stage::Retry => Progress::Done(read_answer(answer)),
        }
    }

    /// Goes on with an invocation after the reply to its message.
    pub fn resume(&mut self, invocation: Invocation, reply: Reply) -> (progress: Progress)
        ensures
            (final(self)@, progress@) == old(self)@.resumed(invocation@, reply@),
            failure_text_is_encoded(reply@),
    {
        let answer = self.transport.receive(reply);
        self.answered(invocation, answer)
    }

    /// The message that releases this client. No reply to it is of interest.
    pub fn release(&self) -> (result: Result<Vec<u8>, Error>)
        ensures
            result matches Ok(message) && message@ == release_message(self@),
    {
        send_document(
            &self.transport,
            &self.profile.auth,
            "release_client",
            &json::number(self.client_id),
        )
    }
}

impl Invocation {
    /// The message to send.
    pub fn message(&self) -> (message: &[u8])
        ensures
            message@ == self@.message,
    {
        self.message.as_slice()
    }
}

} // verus!
