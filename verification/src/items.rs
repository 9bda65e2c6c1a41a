//! Items.
use serde_json::Value;
use vstd::prelude::*;

use crate::client::{Client, ClientView};
use crate::error::{after, outcome, Error, ErrorView};
use crate::json;
use crate::json::{json_of, jsons_of, text_list, Json};
use crate::operation::{ListAnswer, NoAnswer, Operation, WholeAnswer};
use crate::text::{slices_of, texts_of};
use crate::validate::{
    batch_verdict, identifier_verdict, item_ids_verdict, item_verdict, validate_identifier,
    validate_item_batch, validate_item_ids, validate_item_json,
};

verus! {

/// Item-management operations.
///
/// Items are raw JSON values that follow the schema of the official SDKs.
pub struct Items<'a> {
    client: &'a Client,
}

impl View for Items<'_> {
    type V = ClientView;

    closed spec fn view(&self) -> ClientView {
        self.client@
    }
}

/// The parameters that name one item of a vault.
pub open spec fn item_parameters(vault_id: Seq<char>, item_id: Seq<char>) -> Json {
    Json::Object(
        map!["vault_id"@ => Json::Text(vault_id), "item_id"@ => Json::Text(item_id)],
    )
}

/// The parameters that name several items of a vault.
pub open spec fn items_parameters(vault_id: Seq<char>, item_ids: Seq<Seq<char>>) -> Json {
    Json::Object(
        map![
            "vault_id"@ => Json::Text(vault_id),
            "item_ids"@ => Json::List(item_ids.map_values(|id: Seq<char>| Json::Text(id))),
        ],
    )
}

/// The check of the vault and the item that an operation on one item names.
pub open spec fn item_check(vault_id: Seq<char>, item_id: Seq<char>) -> Result<
    (),
    ErrorView,
> {
    after(identifier_verdict("vault ID"@, vault_id), identifier_verdict("item ID"@, item_id))
}

/// The check of the vault and the items that an operation on several items names.
pub open spec fn items_check(vault_id: Seq<char>, item_ids: Seq<Seq<char>>) -> Result<
    (),
    ErrorView,
> {
    after(identifier_verdict("vault ID"@, vault_id), item_ids_verdict(item_ids))
}

impl<'a> Items<'a> {
    /// The item operations of the client.
    pub fn of(client: &'a Client) -> (items: Items<'a>)
        ensures
            items@ == client@,
    {
        Items { client }
    }

    /// Create one item from an official-SDK `ItemCreateParams` JSON object.
    pub fn create(&self, params: Value) -> (result: Result<Operation<WholeAnswer>, Error>)
        ensures
            outcome(result) == after(
                item_verdict("item create params"@, json_of(params)),
                Ok(self@.invoked(
                    "ItemsCreate"@,
                    Json::Object(map!["params"@ => json_of(params)]),
                )),
            ),
    {
        validate_item_json("item create params", &params)?;
        let mut parameters = json::no_members();
        json::insert(&mut parameters, "params", params);
        let invocation = self.client.invoke("ItemsCreate", json::object(parameters))?;
        Ok(Operation::new(invocation, WholeAnswer {  }))
    }

    /// Create up to 100 items in one vault using official-SDK `ItemCreateParams` JSON objects.
    pub fn create_all(&self, vault_id: &str, params: Vec<Value>) -> (result: Result<
        Operation<WholeAnswer>,
        Error,
    >)
        ensures
            outcome(result) == after(
                after(
                    identifier_verdict("vault ID"@, vault_id@),
                    batch_verdict("item create batch"@, jsons_of(params@)),
                ),
                Ok(self@.invoked(
                    "ItemsCreateAll"@,
                    Json::Object(
                        map![
                            "vault_id"@ => Json::Text(vault_id@),
                            "params"@ => Json::List(jsons_of(params@)),
                        ],
                    ),
                )),
            ),
    {
        validate_identifier("vault ID", vault_id)?;
        validate_item_batch("item create batch", params.as_slice())?;
        let mut parameters = json::no_members();
        json::insert(&mut parameters, "vault_id", json::text(vault_id));
        json::insert(&mut parameters, "params", json::list(params));
        let invocation = self.client.invoke("ItemsCreateAll", json::object(parameters))?;
        Ok(Operation::new(invocation, WholeAnswer {  }))
    }

    /// Get one decrypted item by vault and item ID.
    ///
    /// The returned JSON follows the 1Password SDK item schema.
    pub fn get(&self, vault_id: &str, item_id: &str) -> (result: Result<
        Operation<WholeAnswer>,
        Error,
    >)
        ensures
            outcome(result) == after(
                item_check(vault_id@, item_id@),
                Ok(self@.invoked("ItemsGet"@, item_parameters(vault_id@, item_id@))),
            ),
    {
        validate_identifier("vault ID", vault_id)?;
        validate_identifier("item ID", item_id)?;
        let invocation = self.client.invoke("ItemsGet", one_item(vault_id, item_id))?;
        Ok(Operation::new(invocation, WholeAnswer {  }))
    }

    /// Get multiple decrypted items from one vault in one SDK invocation.
    pub fn get_all(&self, vault_id: &str, item_ids: &[&str]) -> (result: Result<
        Operation<WholeAnswer>,
        Error,
    >)
        ensures
            outcome(result) == after(
                items_check(vault_id@, slices_of(item_ids@)),
                Ok(self@.invoked("ItemsGetAll"@, items_parameters(vault_id@, slices_of(item_ids@)))),
            ),
    {
        validate_identifier("vault ID", vault_id)?;
        let ids = validate_item_ids(item_ids)?;
        let invocation = self.client.invoke("ItemsGetAll", several_items(vault_id, &ids))?;
        Ok(Operation::new(invocation, WholeAnswer {  }))
    }

    /// Replace an existing item using an official-SDK `Item` JSON object.
    pub fn put(&self, item: Value) -> (result: Result<Operation<WholeAnswer>, Error>)
        ensures
            outcome(result) == after(
                item_verdict("item"@, json_of(item)),
                Ok(self@.invoked("ItemsPut"@, Json::Object(map!["item"@ => json_of(item)]))),
            ),
    {
        validate_item_json("item", &item)?;
        let mut parameters = json::no_members();
        json::insert(&mut parameters, "item", item);
        let invocation = self.client.invoke("ItemsPut", json::object(parameters))?;
        Ok(Operation::new(invocation, WholeAnswer {  }))
    }

    /// Permanently delete one item.
    pub fn delete(&self, vault_id: &str, item_id: &str) -> (result: Result<
        Operation<NoAnswer>,
        Error,
    >)
        ensures
            outcome(result) == after(
                item_check(vault_id@, item_id@),
                Ok(self@.invoked("ItemsDelete"@, item_parameters(vault_id@, item_id@))),
            ),
    {
        validate_identifier("vault ID", vault_id)?;
        validate_identifier("item ID", item_id)?;
        let invocation = self.client.invoke("ItemsDelete", one_item(vault_id, item_id))?;
        Ok(Operation::new(invocation, NoAnswer {  }))
    }

    /// Permanently delete up to 100 items from one vault.
    pub fn delete_all(&self, vault_id: &str, item_ids: &[&str]) -> (result: Result<
        Operation<WholeAnswer>,
        Error,
    >)
        ensures
            outcome(result) == after(
                items_check(vault_id@, slices_of(item_ids@)),
                Ok(self@.invoked(
                    "ItemsDeleteAll"@,
                    items_parameters(vault_id@, slices_of(item_ids@)),
                )),
            ),
    {
        validate_identifier("vault ID", vault_id)?;
        let ids = validate_item_ids(item_ids)?;
        let invocation = self.client.invoke("ItemsDeleteAll", several_items(vault_id, &ids))?;
        Ok(Operation::new(invocation, WholeAnswer {  }))
    }

    /// Archive one item.
    pub fn archive(&self, vault_id: &str, item_id: &str) -> (result: Result<
        Operation<NoAnswer>,
        Error,
    >)
        ensures
            outcome(result) == after(
                item_check(vault_id@, item_id@),
                Ok(self@.invoked("ItemsArchive"@, item_parameters(vault_id@, item_id@))),
            ),
    {
        validate_identifier("vault ID", vault_id)?;
        validate_identifier("item ID", item_id)?;
        let invocation = self.client.invoke("ItemsArchive", one_item(vault_id, item_id))?;
        Ok(Operation::new(invocation, NoAnswer {  }))
    }

    /// List active items in a vault.
    pub fn list(&self, vault_id: &str) -> (result: Result<Operation<ListAnswer>, Error>)
        ensures
            outcome(result) == after(
                identifier_verdict("vault ID"@, vault_id@),
                Ok(self@.invoked(
                    "ItemsList"@,
                    Json::Object(
                        map![
                            "vault_id"@ => Json::Text(vault_id@),
                            "filters"@ => Json::List(Seq::empty()),
                        ],
                    ),
                )),
            ),
            result matches Ok(operation) ==> operation.reader().otherwise@
                == "items list response was not an array"@,
    {
        validate_identifier("vault ID", vault_id)?;
        let filters: Vec<Value> = Vec::new();
        assert(jsons_of(filters@) =~= Seq::empty());
        let mut parameters = json::no_members();
        json::insert(&mut parameters, "vault_id", json::text(vault_id));
        json::insert(&mut parameters, "filters", json::list(filters));
        let invocation = self.client.invoke("ItemsList", json::object(parameters))?;
        Ok(
            Operation::new(
                invocation,
                ListAnswer { otherwise: "items list response was not an array" },
            ),
        )
    }
}

/// The parameters that name one item of a vault, as a value.
fn one_item(vault_id: &str, item_id: &str) -> (parameters: Value)
    ensures
        json_of(parameters) == item_parameters(vault_id@, item_id@),
{
    let mut members = json::no_members();
    json::insert(&mut members, "vault_id", json::text(vault_id));
    json::insert(&mut members, "item_id", json::text(item_id));
    json::object(members)
}

/// The parameters that name several items of a vault, as a value.
fn several_items(vault_id: &str, item_ids: &Vec<String>) -> (parameters: Value)
    ensures
        json_of(parameters) == items_parameters(vault_id@, texts_of(item_ids@)),
{
    let mut members = json::no_members();
    json::insert(&mut members, "vault_id", json::text(vault_id));
    json::insert(&mut members, "item_ids", text_list(item_ids));
    json::object(members)
}

} // verus!
