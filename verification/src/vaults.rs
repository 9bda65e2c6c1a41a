//! Vaults.
use vstd::prelude::*;

use crate::client::{Client, ClientView};
use crate::error::Error;
use crate::json;
use crate::json::Json;
use crate::operation::{ListAnswer, Operation};

verus! {

/// Read-only vault operations.
pub struct Vaults<'a> {
    client: &'a Client,
}

impl View for Vaults<'_> {
    type V = ClientView;

    closed spec fn view(&self) -> ClientView {
        self.client@
    }
}

impl<'a> Vaults<'a> {
    /// The vault operations of the client.
    pub fn of(client: &'a Client) -> (vaults: Vaults<'a>)
        ensures
            vaults@ == client@,
    {
        Vaults { client }
    }

    /// List vault overviews visible to the authenticated desktop account.
    pub fn list(&self) -> (result: Result<Operation<ListAnswer>, Error>)
        ensures
            result matches Ok(operation) && {
                &&& operation@ == self@.invoked(
                    "VaultsList"@,
                    Json::Object(map!["params"@ => Json::Null]),
                )
                &&& operation.reader().otherwise@ == "vaults list response was not an array"@
            },
    {
        let mut parameters = json::no_members();
        json::insert(&mut parameters, "params", json::null());
        let invocation = self.client.invoke("VaultsList", json::object(parameters))?;
        Ok(
            Operation::new(
                invocation,
                ListAnswer { otherwise: "vaults list response was not an array" },
            ),
        )
    }
}

} // verus!
