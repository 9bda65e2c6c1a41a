//! What operations ask of the desktop app, said of the calls that begin them and of the members of
//! the documents that are sent.
use serde_json::Value;
use vstd::prelude::*;

use crate::client::{
    init_document, invocation_document, Client, Connecting, Initializing, Invocation, Stage,
};
use crate::error::{after, outcome, Error};
use crate::items::{item_parameters, items_parameters, Items};
use crate::json::{json_bytes, json_of, jsons_of, Json};
use crate::operation::{ListAnswer, NoAnswer, Operation, WholeAnswer};
use crate::platform::sdk_os_name;
use crate::secrets::{references_parameters, SecretAnswer, Secrets, SecretsAnswer};
use crate::text::{slices_of, texts_of};
use crate::transport::DesktopTransport;
use crate::validate::{
    validate_identifier, validate_item_batch, validate_item_ids, validate_item_json,
    validate_references,
};
use crate::vaults::Vaults;

verus! {

/// The names of the members that are sent are different from each other, where they stand in one
/// object.
proof fn lemma_member_names()
    ensures
        "vault_id"@ != "item_id"@,
        "vault_id"@ != "item_ids"@,
        "vault_id"@ != "params"@,
        "vault_id"@ != "filters"@,
        "clientId"@ != "parameters"@,
        "name"@ != "parameters"@,
{
    reveal_strlit("vault_id");
    reveal_strlit("item_id");
    reveal_strlit("item_ids");
    reveal_strlit("params");
    reveal_strlit("filters");
    reveal_strlit("clientId");
    reveal_strlit("parameters");
    reveal_strlit("name");
    assert("vault_id"@[0] != "item_ids"@[0]);
    assert("clientId"@.len() != "parameters"@.len());
    assert("name"@.len() != "parameters"@.len());
}

/// A request is a message of the kind `invoke`, for the account of the client, that holds the number
/// of the client, the name of what is asked, and the parameters as they were handed in.
pub proof fn law_requests(
    client: &Client,
    name: &str,
    parameters: Value,
    result: Result<Invocation, Error>,
    transport: &DesktopTransport,
    account: &str,
    kind: &str,
    payload: &[u8],
    message: Vec<u8>,
    request: Map<Seq<char>, Json>,
    invocation: Map<Seq<char>, Json>,
    call: Map<Seq<char>, Json>,
)
    requires
        call_ensures(Client::invoke, (client, name, parameters), result),
        call_ensures(
            DesktopTransport::call,
            (transport, account, kind, payload),
            Ok::<Vec<u8>, Error>(message),
        ),
        account@ == client@.profile.account,
        kind@ == "invoke"@,
        payload@ == json_bytes(Json::Object(request)),
        request.dom() == set!["invocation"@],
        request["invocation"@] == Json::Object(invocation),
        invocation.dom() == set!["clientId"@, "parameters"@],
        invocation["clientId"@] == Json::Unsigned(client@.client_id),
        invocation["parameters"@] == Json::Object(call),
        call.dom() == set!["name"@, "parameters"@],
        call["name"@] == Json::Text(name@),
        call["parameters"@] == json_of(parameters),
    ensures
        result matches Ok(begun) && {
            &&& begun@.message == message@
            &&& begun@.name == name@
            &&& begun@.parameters == json_of(parameters)
            &&& begun@.stage == Stage::Request
        },
{
    lemma_member_names();
    let document = invocation_document(client@.client_id, name@, json_of(parameters));
    let outer = document->Object_0;
    let middle = outer["invocation"@]->Object_0;
    assert(middle["parameters"@]->Object_0 =~= call);
    assert(middle =~= invocation);
    assert(outer =~= request);
}

/// A client is released by a message of the kind `release_client`, for its account, whose payload is
/// its number.
pub proof fn law_releases(
    client: &Client,
    result: Result<Vec<u8>, Error>,
    transport: &DesktopTransport,
    account: &str,
    kind: &str,
    payload: &[u8],
    message: Vec<u8>,
)
    requires
        call_ensures(Client::release, (client,), result),
        call_ensures(
            DesktopTransport::call,
            (transport, account, kind, payload),
            Ok::<Vec<u8>, Error>(message),
        ),
        account@ == client@.profile.account,
        kind@ == "release_client"@,
        payload@ == json_bytes(Json::Unsigned(client@.client_id)),
    ensures
        result matches Ok(sent) && sent@ == message@,
{
}

/// A client is initialized by a message of the kind `init_client`, for its account, that says who it
/// speaks for and where it runs, in eleven members and no others.
pub proof fn law_initializations(
    connecting: Connecting,
    transport: DesktopTransport,
    result: Result<Initializing, Error>,
    account: &str,
    kind: &str,
    payload: &[u8],
    message: Vec<u8>,
    os: &str,
    os_name: String,
    config: Map<Seq<char>, Json>,
)
    requires
        call_ensures(Connecting::loaded, (connecting, transport), result),
        call_ensures(
            DesktopTransport::call,
            (&transport, account, kind, payload),
            Ok::<Vec<u8>, Error>(message),
        ),
        account@ == connecting@.account,
        kind@ == "init_client"@,
        payload@ == json_bytes(Json::Object(config)),
        call_ensures(sdk_os_name, (os,), os_name),
        os@ == connecting@.host.os,
        config.dom() == set![
            "serviceAccountToken"@,
            "programmingLanguage"@,
            "sdkVersion"@,
            "integrationName"@,
            "integrationVersion"@,
            "requestLibraryName"@,
            "requestLibraryVersion"@,
            "os"@,
            "osVersion"@,
            "architecture"@,
            "account_name"@,
        ],
        config["serviceAccountToken"@] == Json::Text(""@),
        config["programmingLanguage"@] == Json::Text("Rust"@),
        config["sdkVersion"@] == Json::Text("0040102"@),
        config["integrationName"@] == Json::Text(connecting@.integration_name),
        config["integrationVersion"@] == Json::Text(connecting@.integration_version),
        config["requestLibraryName"@] == Json::Text("onepassword-sdk-unofficial"@),
        config["requestLibraryVersion"@] == Json::Text("0.1.0"@),
        config["os"@] == Json::Text(os_name@),
        config["osVersion"@] == Json::Text("0.0.0"@),
        config["architecture"@] == Json::Text(connecting@.host.architecture),
        config["account_name"@] == Json::Text(connecting@.account),
    ensures
        result matches Ok(initializing) && {
            &&& initializing@.message == message@
            &&& initializing@.profile == connecting@
            &&& initializing@.platform == transport.platform
        },
{
    reveal_strlit("serviceAccountToken");
    reveal_strlit("programmingLanguage");
    reveal_strlit("sdkVersion");
    reveal_strlit("integrationName");
    reveal_strlit("integrationVersion");
    reveal_strlit("requestLibraryName");
    reveal_strlit("requestLibraryVersion");
    reveal_strlit("os");
    reveal_strlit("osVersion");
    reveal_strlit("architecture");
    reveal_strlit("account_name");
    assert("serviceAccountToken"@[0] != "programmingLanguage"@[0]);
    assert("integrationVersion"@[0] != "requestLibraryName"@[0]);
    assert("architecture"@[1] != "account_name"@[1]);
    assert(init_document(connecting@)->Object_0 =~= config);
}

/// To create an item is to ask for `ItemsCreate` with it as it is, once it has passed its check.
pub proof fn law_create(
    client: &Client,
    items: Items<'_>,
    params: Value,
    kind: &str,
    check: Result<(), Error>,
    result: Result<Operation<WholeAnswer>, Error>,
    name: &str,
    parameters: Value,
    members: Map<Seq<char>, Json>,
    begun: Invocation,
)
    requires
        call_ensures(Client::items, (client,), items),
        call_ensures(Items::create, (&items, params), result),
        kind@ == "item create params"@,
        call_ensures(validate_item_json, (kind, &params), check),
        call_ensures(Client::invoke, (client, name, parameters), Ok::<Invocation, Error>(begun)),
        name@ == "ItemsCreate"@,
        json_of(parameters) == Json::Object(members),
        members.dom() == set!["params"@],
        members["params"@] == json_of(params),
    ensures
        match check {
            Err(refusal) => result matches Err(error) && error@ == refusal@,
            Ok(_) => result matches Ok(operation) && operation@ == begun@,
        },
{
    assert(map!["params"@ => json_of(params)] =~= members);
    assert(outcome(check) is Ok <==> check is Ok);
}

/// To replace an item is to ask for `ItemsPut` with it as it is, once it has passed its check.
pub proof fn law_put(
    client: &Client,
    items: Items<'_>,
    item: Value,
    kind: &str,
    check: Result<(), Error>,
    result: Result<Operation<WholeAnswer>, Error>,
    name: &str,
    parameters: Value,
    members: Map<Seq<char>, Json>,
    begun: Invocation,
)
    requires
        call_ensures(Client::items, (client,), items),
        call_ensures(Items::put, (&items, item), result),
        kind@ == "item"@,
        call_ensures(validate_item_json, (kind, &item), check),
        call_ensures(Client::invoke, (client, name, parameters), Ok::<Invocation, Error>(begun)),
        name@ == "ItemsPut"@,
        json_of(parameters) == Json::Object(members),
        members.dom() == set!["item"@],
        members["item"@] == json_of(item),
    ensures
        match check {
            Err(refusal) => result matches Err(error) && error@ == refusal@,
            Ok(_) => result matches Ok(operation) && operation@ == begun@,
        },
{
    assert(map!["item"@ => json_of(item)] =~= members);
    assert(outcome(check) is Ok <==> check is Ok);
}

/// To get an item is to ask for `ItemsGet` with the vault and the item that were named, once both
/// have passed their check, the vault first.
pub proof fn law_get(
    client: &Client,
    items: Items<'_>,
    vault_id: &str,
    item_id: &str,
    vault_kind: &str,
    item_kind: &str,
    vault_check: Result<(), Error>,
    item_check: Result<(), Error>,
    result: Result<Operation<WholeAnswer>, Error>,
    name: &str,
    parameters: Value,
    members: Map<Seq<char>, Json>,
    begun: Invocation,
)
    requires
        call_ensures(Client::items, (client,), items),
        call_ensures(Items::get, (&items, vault_id, item_id), result),
        vault_kind@ == "vault ID"@,
        call_ensures(validate_identifier, (vault_kind, vault_id), vault_check),
        item_kind@ == "item ID"@,
        call_ensures(validate_identifier, (item_kind, item_id), item_check),
        call_ensures(Client::invoke, (client, name, parameters), Ok::<Invocation, Error>(begun)),
        name@ == "ItemsGet"@,
        json_of(parameters) == Json::Object(members),
        members.dom() == set!["vault_id"@, "item_id"@],
        members["vault_id"@] == Json::Text(vault_id@),
        members["item_id"@] == Json::Text(item_id@),
    ensures
        match (vault_check, item_check) {
            (Err(refusal), _) => result matches Err(error) && error@ == refusal@,
            (Ok(_), Err(refusal)) => result matches Err(error) && error@ == refusal@,
            (Ok(_), Ok(_)) => result matches Ok(operation) && operation@ == begun@,
        },
{
    lemma_member_names();
    assert(item_parameters(vault_id@, item_id@)->Object_0 =~= members);
    assert(outcome(vault_check) is Ok <==> vault_check is Ok);
    assert(outcome(item_check) is Ok <==> item_check is Ok);
}

/// To delete an item is to ask for `ItemsDelete` with the vault and the item that were named, once
/// both have passed their check, the vault first.
pub proof fn law_delete(
    client: &Client,
    items: Items<'_>,
    vault_id: &str,
    item_id: &str,
    vault_kind: &str,
    item_kind: &str,
    vault_check: Result<(), Error>,
    item_check: Result<(), Error>,
    result: Result<Operation<NoAnswer>, Error>,
    name: &str,
    parameters: Value,
    members: Map<Seq<char>, Json>,
    begun: Invocation,
)
    requires
        call_ensures(Client::items, (client,), items),
        call_ensures(Items::delete, (&items, vault_id, item_id), result),
        vault_kind@ == "vault ID"@,
        call_ensures(validate_identifier, (vault_kind, vault_id), vault_check),
        item_kind@ == "item ID"@,
        call_ensures(validate_identifier, (item_kind, item_id), item_check),
        call_ensures(Client::invoke, (client, name, parameters), Ok::<Invocation, Error>(begun)),
        name@ == "ItemsDelete"@,
        json_of(parameters) == Json::Object(members),
        members.dom() == set!["vault_id"@, "item_id"@],
        members["vault_id"@] == Json::Text(vault_id@),
        members["item_id"@] == Json::Text(item_id@),
    ensures
        match (vault_check, item_check) {
            (Err(refusal), _) => result matches Err(error) && error@ == refusal@,
            (Ok(_), Err(refusal)) => result matches Err(error) && error@ == refusal@,
            (Ok(_), Ok(_)) => result matches Ok(operation) && operation@ == begun@,
        },
{
    lemma_member_names();
    assert(item_parameters(vault_id@, item_id@)->Object_0 =~= members);
    assert(outcome(vault_check) is Ok <==> vault_check is Ok);
    assert(outcome(item_check) is Ok <==> item_check is Ok);
}

/// To archive an item is to ask for `ItemsArchive` with the vault and the item that were named, once
/// both have passed their check, the vault first.
pub proof fn law_archive(
    client: &Client,
    items: Items<'_>,
    vault_id: &str,
    item_id: &str,
    vault_kind: &str,
    item_kind: &str,
    vault_check: Result<(), Error>,
    item_check: Result<(), Error>,
    result: Result<Operation<NoAnswer>, Error>,
    name: &str,
    parameters: Value,
    members: Map<Seq<char>, Json>,
    begun: Invocation,
)
    requires
        call_ensures(Client::items, (client,), items),
        call_ensures(Items::archive, (&items, vault_id, item_id), result),
        vault_kind@ == "vault ID"@,
        call_ensures(validate_identifier, (vault_kind, vault_id), vault_check),
        item_kind@ == "item ID"@,
        call_ensures(validate_identifier, (item_kind, item_id), item_check),
        call_ensures(Client::invoke, (client, name, parameters), Ok::<Invocation, Error>(begun)),
        name@ == "ItemsArchive"@,
        json_of(parameters) == Json::Object(members),
        members.dom() == set!["vault_id"@, "item_id"@],
        members["vault_id"@] == Json::Text(vault_id@),
        members["item_id"@] == Json::Text(item_id@),
    ensures
        match (vault_check, item_check) {
            (Err(refusal), _) => result matches Err(error) && error@ == refusal@,
            (Ok(_), Err(refusal)) => result matches Err(error) && error@ == refusal@,
            (Ok(_), Ok(_)) => result matches Ok(operation) && operation@ == begun@,
        },
{
    lemma_member_names();
    assert(item_parameters(vault_id@, item_id@)->Object_0 =~= members);
    assert(outcome(vault_check) is Ok <==> vault_check is Ok);
    assert(outcome(item_check) is Ok <==> item_check is Ok);
}

/// To get several items is to ask for `ItemsGetAll` with the vault and all the items that were named,
/// each at its place, once the vault and then the items have passed their checks.
pub proof fn law_get_all(
    client: &Client,
    items: Items<'_>,
    vault_id: &str,
    item_ids: &[&str],
    vault_kind: &str,
    vault_check: Result<(), Error>,
    ids_check: Result<Vec<String>, Error>,
    result: Result<Operation<WholeAnswer>, Error>,
    name: &str,
    parameters: Value,
    members: Map<Seq<char>, Json>,
    elements: Seq<Json>,
    begun: Invocation,
)
    requires
        call_ensures(Client::items, (client,), items),
        call_ensures(Items::get_all, (&items, vault_id, item_ids), result),
        vault_kind@ == "vault ID"@,
        call_ensures(validate_identifier, (vault_kind, vault_id), vault_check),
        call_ensures(validate_item_ids, (item_ids,), ids_check),
        call_ensures(Client::invoke, (client, name, parameters), Ok::<Invocation, Error>(begun)),
        name@ == "ItemsGetAll"@,
        json_of(parameters) == Json::Object(members),
        members.dom() == set!["vault_id"@, "item_ids"@],
        members["vault_id"@] == Json::Text(vault_id@),
        members["item_ids"@] == Json::List(elements),
        elements.len() == item_ids@.len(),
        forall|i: int|
            0 <= i < elements.len() ==> #[trigger] elements[i] == Json::Text(item_ids@[i]@),
    ensures
        match (vault_check, ids_check) {
            (Err(refusal), _) => result matches Err(error) && error@ == refusal@,
            (Ok(_), Err(refusal)) => result matches Err(error) && error@ == refusal@,
            (Ok(_), Ok(_)) => result matches Ok(operation) && operation@ == begun@,
        },
{
    lemma_member_names();
    let sent = items_parameters(vault_id@, slices_of(item_ids@))->Object_0;
    assert(sent["item_ids"@]->List_0 =~= elements);
    assert(sent =~= members);
    assert(outcome(vault_check) is Ok <==> vault_check is Ok);
}

/// The identifiers that are sent to get several items are those that were handed in: as many, and
/// each at its place.
pub proof fn law_get_all_names_them_all(
    items: &Items<'_>,
    vault_id: &str,
    item_ids: &[&str],
    result: Result<Operation<WholeAnswer>, Error>,
)
    requires
        call_ensures(Items::get_all, (items, vault_id, item_ids), result),
    ensures
        result matches Ok(operation) ==> {
            &&& operation@.parameters matches Json::Object(members)
            &&& members.contains_key("item_ids"@)
            &&& members["item_ids"@] matches Json::List(elements)
            &&& elements.len() == item_ids@.len()
            &&& forall|i: int|
                0 <= i < item_ids@.len() ==> #[trigger] elements[i] == Json::Text(item_ids@[i]@)
            &&& members.contains_key("vault_id"@)
            &&& members["vault_id"@] == Json::Text(vault_id@)
        },
{
    lemma_member_names();
    assert(slices_of(item_ids@).len() == item_ids@.len());
}

/// To delete several items is to ask for `ItemsDeleteAll` with the vault and all the items that were
/// named, each at its place, once the vault and then the items have passed their checks.
pub proof fn law_delete_all(
    client: &Client,
    items: Items<'_>,
    vault_id: &str,
    item_ids: &[&str],
    vault_kind: &str,
    vault_check: Result<(), Error>,
    ids_check: Result<Vec<String>, Error>,
    result: Result<Operation<WholeAnswer>, Error>,
    name: &str,
    parameters: Value,
    members: Map<Seq<char>, Json>,
    elements: Seq<Json>,
    begun: Invocation,
)
    requires
        call_ensures(Client::items, (client,), items),
        call_ensures(Items::delete_all, (&items, vault_id, item_ids), result),
        vault_kind@ == "vault ID"@,
        call_ensures(validate_identifier, (vault_kind, vault_id), vault_check),
        call_ensures(validate_item_ids, (item_ids,), ids_check),
        call_ensures(Client::invoke, (client, name, parameters), Ok::<Invocation, Error>(begun)),
        name@ == "ItemsDeleteAll"@,
        json_of(parameters) == Json::Object(members),
        members.dom() == set!["vault_id"@, "item_ids"@],
        members["vault_id"@] == Json::Text(vault_id@),
        members["item_ids"@] == Json::List(elements),
        elements.len() == item_ids@.len(),
        forall|i: int|
            0 <= i < elements.len() ==> #[trigger] elements[i] == Json::Text(item_ids@[i]@),
    ensures
        match (vault_check, ids_check) {
            (Err(refusal), _) => result matches Err(error) && error@ == refusal@,
            (Ok(_), Err(refusal)) => result matches Err(error) && error@ == refusal@,
            (Ok(_), Ok(_)) => result matches Ok(operation) && operation@ == begun@,
        },
{
    lemma_member_names();
    let sent = items_parameters(vault_id@, slices_of(item_ids@))->Object_0;
    assert(sent["item_ids"@]->List_0 =~= elements);
    assert(sent =~= members);
    assert(outcome(vault_check) is Ok <==> vault_check is Ok);
}

/// The identifiers that are sent to delete several items are those that were handed in: as many, and
/// each at its place.
pub proof fn law_delete_all_names_them_all(
    items: &Items<'_>,
    vault_id: &str,
    item_ids: &[&str],
    result: Result<Operation<WholeAnswer>, Error>,
)
    requires
        call_ensures(Items::delete_all, (items, vault_id, item_ids), result),
    ensures
        result matches Ok(operation) ==> {
            &&& operation@.parameters matches Json::Object(members)
            &&& members.contains_key("item_ids"@)
            &&& members["item_ids"@] matches Json::List(elements)
            &&& elements.len() == item_ids@.len()
            &&& forall|i: int|
                0 <= i < item_ids@.len() ==> #[trigger] elements[i] == Json::Text(item_ids@[i]@)
            &&& members.contains_key("vault_id"@)
            &&& members["vault_id"@] == Json::Text(vault_id@)
        },
{
    lemma_member_names();
    assert(slices_of(item_ids@).len() == item_ids@.len());
}

/// To create several items is to ask for `ItemsCreateAll` with the vault and all of them, as they are
/// and in their order, once the vault and the batch have passed their checks.
pub proof fn law_create_all(
    client: &Client,
    items: Items<'_>,
    vault_id: &str,
    params: Vec<Value>,
    values: &[Value],
    vault_kind: &str,
    batch_kind: &str,
    vault_check: Result<(), Error>,
    batch_check: Result<(), Error>,
    result: Result<Operation<WholeAnswer>, Error>,
    name: &str,
    parameters: Value,
    members: Map<Seq<char>, Json>,
    elements: Seq<Json>,
    begun: Invocation,
)
    requires
        call_ensures(Client::items, (client,), items),
        call_ensures(Items::create_all, (&items, vault_id, params), result),
        vault_kind@ == "vault ID"@,
        call_ensures(validate_identifier, (vault_kind, vault_id), vault_check),
        batch_kind@ == "item create batch"@,
        values@ == params@,
        call_ensures(validate_item_batch, (batch_kind, values), batch_check),
        call_ensures(Client::invoke, (client, name, parameters), Ok::<Invocation, Error>(begun)),
        name@ == "ItemsCreateAll"@,
        json_of(parameters) == Json::Object(members),
        members.dom() == set!["vault_id"@, "params"@],
        members["vault_id"@] == Json::Text(vault_id@),
        members["params"@] == Json::List(elements),
        elements.len() == params@.len(),
        forall|i: int|
            0 <= i < elements.len() ==> #[trigger] elements[i] == json_of(params@[i]),
    ensures
        match (vault_check, batch_check) {
            (Err(refusal), _) => result matches Err(error) && error@ == refusal@,
            (Ok(_), Err(refusal)) => result matches Err(error) && error@ == refusal@,
            (Ok(_), Ok(_)) => result matches Ok(operation) && operation@ == begun@,
        },
{
    lemma_member_names();
    assert(jsons_of(params@) =~= elements);
    assert(map![
        "vault_id"@ => Json::Text(vault_id@),
        "params"@ => Json::List(jsons_of(params@)),
    ] =~= members);
    assert(outcome(vault_check) is Ok <==> vault_check is Ok);
    assert(outcome(batch_check) is Ok <==> batch_check is Ok);
}

/// To list the items of a vault is to ask for `ItemsList` with the vault and no filters, once the
/// vault has passed its check; what is not an array in answer is said to be none.
pub proof fn law_list_items(
    client: &Client,
    items: Items<'_>,
    vault_id: &str,
    vault_kind: &str,
    vault_check: Result<(), Error>,
    result: Result<Operation<ListAnswer>, Error>,
    name: &str,
    parameters: Value,
    members: Map<Seq<char>, Json>,
    filters: Seq<Json>,
    begun: Invocation,
)
    requires
        call_ensures(Client::items, (client,), items),
        call_ensures(Items::list, (&items, vault_id), result),
        vault_kind@ == "vault ID"@,
        call_ensures(validate_identifier, (vault_kind, vault_id), vault_check),
        call_ensures(Client::invoke, (client, name, parameters), Ok::<Invocation, Error>(begun)),
        name@ == "ItemsList"@,
        json_of(parameters) == Json::Object(members),
        members.dom() == set!["vault_id"@, "filters"@],
        members["vault_id"@] == Json::Text(vault_id@),
        members["filters"@] == Json::List(filters),
        filters.len() == 0,
    ensures
        match vault_check {
            Err(refusal) => result matches Err(error) && error@ == refusal@,
            Ok(_) => {
                &&& result matches Ok(operation)
                &&& operation@ == begun@
                &&& operation.reader().otherwise@ == "items list response was not an array"@
            },
        },
{
    lemma_member_names();
    assert(filters =~= Seq::<Json>::empty());
    assert(map![
        "vault_id"@ => Json::Text(vault_id@),
        "filters"@ => Json::List(Seq::empty()),
    ] =~= members);
    assert(outcome(vault_check) is Ok <==> vault_check is Ok);
}

/// To list the vaults is to ask for `VaultsList` with null; what is not an array in answer is said to
/// be none.
pub proof fn law_list_vaults(
    client: &Client,
    vaults: Vaults<'_>,
    result: Result<Operation<ListAnswer>, Error>,
    name: &str,
    parameters: Value,
    members: Map<Seq<char>, Json>,
    begun: Invocation,
)
    requires
        call_ensures(Client::vaults, (client,), vaults),
        call_ensures(Vaults::list, (&vaults,), result),
        call_ensures(Client::invoke, (client, name, parameters), Ok::<Invocation, Error>(begun)),
        name@ == "VaultsList"@,
        json_of(parameters) == Json::Object(members),
        members.dom() == set!["params"@],
        members["params"@] == Json::Null,
    ensures
        result matches Ok(operation) && {
            &&& operation@ == begun@
            &&& operation.reader().otherwise@ == "vaults list response was not an array"@
        },
{
    assert(map!["params"@ => Json::Null] =~= members);
}

/// To resolve references is to ask for `SecretsResolveAll` with all of them, each at its place, once
/// they have passed their check; the answer is then read for the same references.
pub proof fn law_resolve_all(
    client: &Client,
    secrets: Secrets<'_>,
    references: &[&str],
    owned: &[String],
    check: Result<(), Error>,
    result: Result<Operation<SecretsAnswer>, Error>,
    name: &str,
    parameters: Value,
    members: Map<Seq<char>, Json>,
    elements: Seq<Json>,
    begun: Invocation,
)
    requires
        call_ensures(Client::secrets, (client,), secrets),
        call_ensures(Secrets::resolve_all, (&secrets, references), result),
        owned@.len() == references@.len(),
        forall|i: int| 0 <= i < owned@.len() ==> (#[trigger] owned@[i])@ == references@[i]@,
        call_ensures(validate_references, (owned,), check),
        call_ensures(Client::invoke, (client, name, parameters), Ok::<Invocation, Error>(begun)),
        name@ == "SecretsResolveAll"@,
        json_of(parameters) == Json::Object(members),
        members.dom() == set!["secret_references"@],
        members["secret_references"@] == Json::List(elements),
        elements.len() == references@.len(),
        forall|i: int|
            0 <= i < elements.len() ==> #[trigger] elements[i] == Json::Text(references@[i]@),
    ensures
        match check {
            Err(refusal) => result matches Err(error) && error@ == refusal@,
            Ok(_) => {
                &&& result matches Ok(operation)
                &&& operation@ == begun@
                &&& operation.reader().references@.len() == references@.len()
                &&& forall|i: int|
                    0 <= i < references@.len() ==> (
                    #[trigger] operation.reader().references@[i])@ == references@[i]@
            },
        },
{
    let texts = slices_of(references@);
    assert(texts_of(owned@) =~= texts);
    let sent = references_parameters(texts)->Object_0;
    assert(sent["secret_references"@]->List_0 =~= elements);
    assert(sent =~= members);
    assert(outcome(check) is Ok <==> check is Ok);
    if result is Ok {
        let read = result->Ok_0.reader().references@;
        assert(texts_of(read).len() == read.len());
        assert forall|i: int| 0 <= i < read.len() implies (#[trigger] read[i])@ == references@[i]@ by {
            assert(texts_of(read)[i] == texts[i]);
        }
    }
}

/// To resolve one reference is to resolve a batch of that one alone: the same request, or the same
/// refusal, and the answer is read for that reference.
pub proof fn law_resolve(
    secrets: &Secrets<'_>,
    reference: &str,
    references: &[&str],
    batch: Result<Operation<SecretsAnswer>, Error>,
    result: Result<Operation<SecretAnswer>, Error>,
)
    requires
        call_ensures(Secrets::resolve, (secrets, reference), result),
        references@.len() == 1,
        references@[0]@ == reference@,
        call_ensures(Secrets::resolve_all, (secrets, references), batch),
    ensures
        match (result, batch) {
            (Ok(operation), Ok(other)) => {
                &&& operation@ == other@
                &&& operation.reader().all.references@.len() == 1
                &&& operation.reader().all.references@[0]@ == reference@
            },
            (Err(error), Err(refusal)) => error@ == refusal@,
            _ => false,
        },
{
    assert(slices_of(references@) =~= seq![reference@]);
    if result is Ok {
        let read = result->Ok_0.reader().all.references@;
        assert(texts_of(read).len() == read.len());
        assert(texts_of(read)[0] == read[0]@);
    }
}

/// A refusal comes first, and what is owed otherwise is owed only where there is none.
pub proof fn law_refusals_come_first<T>(
    check: Result<(), crate::error::ErrorView>,
    owed: Result<T, crate::error::ErrorView>,
)
    ensures
        check is Ok ==> after(check, owed) == owed,
        check matches Err(refusal) ==> after(check, owed) == Err::<T, crate::error::ErrorView>(
            refusal,
        ),
{
}

} // verus!
