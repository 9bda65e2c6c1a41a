//! Bounds on what callers hand in.
use serde_json::Value;
use vstd::prelude::*;

use crate::error::{
    first_fault, lemma_first_fault_of_beginning, outcome, protocol_error, Error, ErrorView,
};
use crate::json;
use crate::json::{json_bytes, json_of, jsons_of, Json};
use crate::text::{
    byte_len, byte_length, contains_control, has_control, joined, slices_of, starts_with, texts_of,
};

verus! {

pub const MAX_SECRET_REFERENCES: usize = 100;

pub const MAX_REFERENCE_BYTES: usize = 4096;

pub const MAX_REFERENCE_INPUT_BYTES: usize = 131072;

pub const MAX_ACCOUNT_BYTES: usize = 4096;

pub const MAX_METADATA_BYTES: usize = 1024;

pub const MAX_IDENTIFIER_BYTES: usize = 4096;

pub const MAX_ITEM_BATCH: usize = 100;

pub const MAX_ITEM_JSON_BYTES: usize = 1048576;

pub const MAX_ITEM_BATCH_JSON_BYTES: usize = 8388608;

/// What is said of an account name.
pub open spec fn account_verdict(account: Seq<char>) -> Result<(), ErrorView> {
    if account.len() == 0 {
        Err(ErrorView::InvalidArgument("account must not be empty"@))
    } else if byte_length(account) > MAX_ACCOUNT_BYTES {
        Err(ErrorView::InvalidArgument("account exceeds 4096 bytes"@))
    } else if has_control(account) {
        Err(ErrorView::InvalidArgument("account must not contain control characters"@))
    } else {
        Ok(())
    }
}

/// What is said of a name or a version that an integration gives itself.
pub open spec fn metadata_verdict(label: Seq<char>, value: Seq<char>) -> Result<(), ErrorView> {
    if value.len() == 0 || has_control(value) || byte_length(value) > MAX_METADATA_BYTES {
        Err(ErrorView::InvalidArgument("invalid "@ + label))
    } else {
        Ok(())
    }
}

/// What is said of the identifier of a vault or an item.
pub open spec fn identifier_verdict(kind: Seq<char>, value: Seq<char>) -> Result<(), ErrorView> {
    if value.len() == 0 || byte_length(value) > MAX_IDENTIFIER_BYTES {
        Err(ErrorView::InvalidArgument(kind + " is empty or too large"@))
    } else {
        Ok(())
    }
}

/// The length in bytes of the first `count` texts together.
pub open spec fn total_length(texts: Seq<Seq<char>>, count: int) -> nat
    decreases count,
{
    if count <= 0 {
        0
    } else {
        total_length(texts, count - 1) + byte_length(texts[count - 1])
    }
}

/// What is wrong with the secret reference at the index, given those before it.
pub open spec fn reference_fault(references: Seq<Seq<char>>, index: int) -> Option<ErrorView> {
    let reference = references[index];
    if !"op://"@.is_prefix_of(reference) {
        Some(ErrorView::InvalidArgument("secret references must start with op://"@))
    } else if byte_length(reference) > MAX_REFERENCE_BYTES {
        Some(ErrorView::InvalidArgument("secret reference exceeds 4096 bytes"@))
    } else if has_control(reference) {
        Some(ErrorView::InvalidArgument("secret references must not contain control characters"@))
    } else if total_length(references, index + 1) > MAX_REFERENCE_INPUT_BYTES {
        Some(ErrorView::InvalidArgument("secret references exceed 131072 bytes in total"@))
    } else {
        None
    }
}

/// The fault of each of the first `count` secret references.
pub open spec fn reference_faults(references: Seq<Seq<char>>, count: int) -> Seq<
    Option<ErrorView>,
> {
    Seq::new(count as nat, |i: int| reference_fault(references, i))
}

/// What is said of a batch of secret references.
pub open spec fn references_verdict(references: Seq<Seq<char>>) -> Result<(), ErrorView> {
    if references.len() == 0 {
        Err(ErrorView::InvalidArgument("references must not be empty"@))
    } else if references.len() > MAX_SECRET_REFERENCES {
        Err(ErrorView::InvalidArgument("references must contain at most 100 entries"@))
    } else {
        match first_fault(reference_faults(references, references.len() as int)) {
            Some(fault) => Err(fault),
            None => Ok(()),
        }
    }
}

/// What is said of an item of so many bytes.
pub open spec fn item_size_verdict(kind: Seq<char>, size: nat) -> Result<(), ErrorView> {
    if size > MAX_ITEM_JSON_BYTES {
        Err(ErrorView::InvalidArgument(kind + " exceeds 1048576 bytes"@))
    } else {
        Ok(())
    }
}

/// What is said of an item.
pub open spec fn item_verdict(kind: Seq<char>, item: Json) -> Result<(), ErrorView> {
    if !(item is Object) {
        Err(ErrorView::InvalidArgument(kind + " must be a JSON object"@))
    } else {
        item_size_verdict(kind, json_bytes(item).len())
    }
}

/// How many bytes the first `count` documents have together.
pub open spec fn total_size(documents: Seq<Json>, count: int) -> nat
    decreases count,
{
    if count <= 0 {
        0
    } else {
        total_size(documents, count - 1) + json_bytes(documents[count - 1]).len()
    }
}

/// What is wrong with the item at the index of a batch, given those before it.
pub open spec fn item_fault(kind: Seq<char>, items: Seq<Json>, index: int) -> Option<ErrorView> {
    match item_verdict("item"@, items[index]) {
        Err(error) => Some(error),
        Ok(_) => if total_size(items, index + 1) > MAX_ITEM_BATCH_JSON_BYTES {
            Some(ErrorView::InvalidArgument(kind + " exceeds 8388608 bytes"@))
        } else {
            None
        },
    }
}

/// The fault of each of the first `count` items of a batch.
pub open spec fn item_faults(kind: Seq<char>, items: Seq<Json>, count: int) -> Seq<
    Option<ErrorView>,
> {
    Seq::new(count as nat, |i: int| item_fault(kind, items, i))
}

/// What is said of a batch of items.
pub open spec fn batch_verdict(kind: Seq<char>, items: Seq<Json>) -> Result<(), ErrorView> {
    if items.len() == 0 || items.len() > MAX_ITEM_BATCH {
        Err(ErrorView::InvalidArgument(kind + " must contain between 1 and 100 items"@))
    } else {
        match first_fault(item_faults(kind, items, items.len() as int)) {
            Some(fault) => Err(fault),
            None => Ok(()),
        }
    }
}

/// The fault of each of the first `count` item identifiers.
pub open spec fn item_id_faults(ids: Seq<Seq<char>>, count: int) -> Seq<Option<ErrorView>> {
    Seq::new(
        count as nat,
        |i: int|
            match identifier_verdict("item ID"@, ids[i]) {
                Ok(_) => None,
                Err(error) => Some(error),
            },
    )
}

/// What is said of a batch of item identifiers.
pub open spec fn item_ids_verdict(ids: Seq<Seq<char>>) -> Result<(), ErrorView> {
    if ids.len() == 0 || ids.len() > MAX_ITEM_BATCH {
        Err(ErrorView::InvalidArgument("item batch must contain between 1 and 100 IDs"@))
    } else {
        match first_fault(item_id_faults(ids, ids.len() as int)) {
            Some(fault) => Err(fault),
            None => Ok(()),
        }
    }
}

/// Checks an account name.
pub fn validate_account(account: &str) -> (result: Result<(), Error>)
    ensures
        outcome(result) == account_verdict(account@),
{
    if account.is_empty() {
        return Err(Error::InvalidArgument("account must not be empty".to_owned()));
    }
    if byte_len(account) > MAX_ACCOUNT_BYTES {
        return Err(Error::InvalidArgument("account exceeds 4096 bytes".to_owned()));
    }
    if contains_control(account) {
        return Err(
            Error::InvalidArgument("account must not contain control characters".to_owned()),
        );
    }
    Ok(())
}

/// Checks a name or a version that an integration gives itself.
pub fn validate_metadata(label: &str, value: &str) -> (result: Result<(), Error>)
    ensures
        outcome(result) == metadata_verdict(label@, value@),
{
    if value.is_empty() || contains_control(value) || byte_len(value) > MAX_METADATA_BYTES {
        return Err(Error::InvalidArgument(joined("invalid ", label)));
    }
    Ok(())
}

/// Checks the identifier of a vault or an item.
pub fn validate_identifier(kind: &str, value: &str) -> (result: Result<(), Error>)
    ensures
        outcome(result) == identifier_verdict(kind@, value@),
{
    if value.is_empty() || byte_len(value) > MAX_IDENTIFIER_BYTES {
        return Err(Error::InvalidArgument(joined(kind, " is empty or too large")));
    }
    Ok(())
}

/// Checks a batch of secret references.
pub fn validate_references(references: &[String]) -> (result: Result<(), Error>)
    ensures
        outcome(result) == references_verdict(texts_of(references@)),
{
    if references.len() == 0 {
        return Err(Error::InvalidArgument("references must not be empty".to_owned()));
    }
    if references.len() > MAX_SECRET_REFERENCES {
        return Err(
            Error::InvalidArgument("references must contain at most 100 entries".to_owned()),
        );
    }
    let ghost texts = texts_of(references@);
    let mut total: usize = 0;
    for i in 0..references.len()
        invariant
            texts == texts_of(references@),
            0 < references@.len() <= MAX_SECRET_REFERENCES,
            total == total_length(texts, i as int),
            total <= MAX_REFERENCE_INPUT_BYTES,
            first_fault(reference_faults(texts, i as int)) is None,
    {
        let reference = references[i].as_str();
        assert(texts[i as int] == reference@);
        proof {
            lemma_references_verdict(texts, i as int);
        }
        if !starts_with(reference, "op://") {
            return Err(
                Error::InvalidArgument("secret references must start with op://".to_owned()),
            );
        }
        if byte_len(reference) > MAX_REFERENCE_BYTES {
            return Err(Error::InvalidArgument("secret reference exceeds 4096 bytes".to_owned()));
        }
        if contains_control(reference) {
            return Err(
                Error::InvalidArgument(
                    "secret references must not contain control characters".to_owned(),
                ),
            );
        }
        total = match total.checked_add(byte_len(reference)) {
            Some(sum) => sum,
            None => {
                return Err(Error::InvalidArgument("secret reference size overflow".to_owned()));
            },
        };
        if total > MAX_REFERENCE_INPUT_BYTES {
            return Err(
                Error::InvalidArgument(
                    "secret references exceed 131072 bytes in total".to_owned(),
                ),
            );
        }
    }
    Ok(())
}

/// Checks the size of an item.
pub fn validate_item_size(kind: &str, size: usize) -> (result: Result<(), Error>)
    ensures
        outcome(result) == item_size_verdict(kind@, size as nat),
{
    if size > MAX_ITEM_JSON_BYTES {
        return Err(Error::InvalidArgument(joined(kind, " exceeds 1048576 bytes")));
    }
    Ok(())
}

/// Checks an item.
pub fn validate_item_json(kind: &str, value: &Value) -> (result: Result<(), Error>)
    ensures
        outcome(result) == item_verdict(kind@, json_of(*value)),
{
    if !json::is_object(value) {
        return Err(Error::InvalidArgument(joined(kind, " must be a JSON object")));
    }
    match json::to_vec(value) {
        Ok(bytes) => validate_item_size(kind, bytes.len()),
        Err(error) => Err(protocol_error(error)),
    }
}

/// Adds the size of one more item of a batch to the sizes before it.
pub fn add_batch_size(kind: &str, total: usize, size: usize) -> (result: Result<usize, Error>)
    ensures
        match result {
            Ok(sum) => sum == total + size && sum <= MAX_ITEM_BATCH_JSON_BYTES,
            Err(error) => {
                &&& total + size > MAX_ITEM_BATCH_JSON_BYTES
                &&& error@ == ErrorView::InvalidArgument(kind@ + " exceeds 8388608 bytes"@)
            },
        },
{
    let sum = total.saturating_add(size);
    if sum > MAX_ITEM_BATCH_JSON_BYTES {
        return Err(Error::InvalidArgument(joined(kind, " exceeds 8388608 bytes")));
    }
    Ok(sum)
}

/// Checks a batch of items.
pub fn validate_item_batch(kind: &str, values: &[Value]) -> (result: Result<(), Error>)
    ensures
        outcome(result) == batch_verdict(kind@, jsons_of(values@)),
{
    if values.len() == 0 || values.len() > MAX_ITEM_BATCH {
        return Err(
            Error::InvalidArgument(joined(kind, " must contain between 1 and 100 items")),
        );
    }
    let ghost items = jsons_of(values@);
    let mut total: usize = 0;
    for i in 0..values.len()
        invariant
            items == jsons_of(values@),
            0 < values@.len() <= MAX_ITEM_BATCH,
            total == total_size(items, i as int),
            first_fault(item_faults(kind@, items, i as int)) is None,
    {
        let value = &values[i];
        assert(items[i as int] == json_of(*value));
        proof {
            lemma_batch_verdict(kind@, items, i as int);
        }
        validate_item_json("item", value)?;
        let size: usize = match json::to_vec(value) {
            Ok(bytes) => bytes.len(),
            Err(error) => {
                return Err(protocol_error(error));
            },
        };
        total = add_batch_size(kind, total, size)?;
    }
    Ok(())
}

/// Checks a batch of item identifiers, and gives them back.
pub fn validate_item_ids(item_ids: &[&str]) -> (result: Result<Vec<String>, Error>)
    ensures
        match result {
            Ok(ids) => {
                &&& item_ids_verdict(slices_of(item_ids@)) == Ok::<(), ErrorView>(())
                &&& texts_of(ids@) == slices_of(item_ids@)
            },
            Err(error) => item_ids_verdict(slices_of(item_ids@)) == Err::<(), ErrorView>(error@),
        },
{
    if item_ids.len() == 0 || item_ids.len() > MAX_ITEM_BATCH {
        return Err(
            Error::InvalidArgument("item batch must contain between 1 and 100 IDs".to_owned()),
        );
    }
    let ghost texts = slices_of(item_ids@);
    let mut ids: Vec<String> = Vec::new();
    for i in 0..item_ids.len()
        invariant
            texts == slices_of(item_ids@),
            0 < item_ids@.len() <= MAX_ITEM_BATCH,
            ids@.len() == i,
            forall|j: int| 0 <= j < i ==> (#[trigger] ids@[j])@ == texts[j],
            first_fault(item_id_faults(texts, i as int)) is None,
    {
        let id = item_ids[i];
        assert(texts[i as int] == id@);
        proof {
            lemma_item_ids_verdict(texts, i as int);
        }
        validate_identifier("item ID", id)?;
        ids.push(id.to_owned());
    }
    assert(texts_of(ids@) =~= texts);
    Ok(ids)
}

/// Where the references before the index have no fault, the one at the index decides.
pub proof fn lemma_references_verdict(references: Seq<Seq<char>>, index: int)
    requires
        0 <= index < references.len(),
        first_fault(reference_faults(references, index)) is None,
    ensures
        first_fault(reference_faults(references, index + 1)) == reference_fault(references, index),
        reference_fault(references, index) is Some ==> first_fault(
            reference_faults(references, references.len() as int),
        ) == reference_fault(references, index),
{
    let longer = reference_faults(references, index + 1);
    assert(longer.drop_last() =~= reference_faults(references, index));
    if longer.last() is Some {
        let all = reference_faults(references, references.len() as int);
        assert(all.take(index + 1) =~= longer);
        lemma_first_fault_of_beginning(all, index + 1);
    }
}

/// Where the items before the index have no fault, the one at the index decides.
pub proof fn lemma_batch_verdict(kind: Seq<char>, items: Seq<Json>, index: int)
    requires
        0 <= index < items.len(),
        first_fault(item_faults(kind, items, index)) is None,
    ensures
        first_fault(item_faults(kind, items, index + 1)) == item_fault(kind, items, index),
        item_fault(kind, items, index) is Some ==> first_fault(
            item_faults(kind, items, items.len() as int),
        ) == item_fault(kind, items, index),
{
    let longer = item_faults(kind, items, index + 1);
    assert(longer.drop_last() =~= item_faults(kind, items, index));
    if longer.last() is Some {
        let all = item_faults(kind, items, items.len() as int);
        assert(all.take(index + 1) =~= longer);
        lemma_first_fault_of_beginning(all, index + 1);
    }
}

/// Where the identifiers before the index have no fault, the one at the index decides.
proof fn lemma_item_ids_verdict(ids: Seq<Seq<char>>, index: int)
    requires
        0 <= index < ids.len(),
        first_fault(item_id_faults(ids, index)) is None,
    ensures
        first_fault(item_id_faults(ids, index + 1)) == match identifier_verdict(
            "item ID"@,
            ids[index],
        ) {
            Ok(_) => None,
            Err(error) => Some(error),
        },
        identifier_verdict("item ID"@, ids[index]) matches Err(error) ==> first_fault(
            item_id_faults(ids, ids.len() as int),
        ) == Some(error),
{
    let longer = item_id_faults(ids, index + 1);
    assert(longer.drop_last() =~= item_id_faults(ids, index));
    if longer.last() is Some {
        let all = item_id_faults(ids, ids.len() as int);
        assert(all.take(index + 1) =~= longer);
        lemma_first_fault_of_beginning(all, index + 1);
    }
}

} // verus!
