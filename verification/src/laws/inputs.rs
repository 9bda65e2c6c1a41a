//! What is accepted from callers, said of the calls that check it: of lengths in UTF-8, of code
//! points, and of numbers.
use serde_json::Value;
use vstd::prelude::*;
use vstd::utf8::encode_utf8;

use crate::client::DesktopAuth;
use crate::error::{first_fault, lemma_no_first_fault, outcome, Error};
use crate::json::{json_bytes, json_of, jsons_of, Json};
use crate::text::{
    byte_len, contains_control, has_control, is_control, is_control_char, joined, slices_of,
    texts_of,
};
use crate::validate::{
    add_batch_size, item_fault, item_faults, item_id_faults, reference_fault, reference_faults,
    total_length, total_size, validate_account, validate_identifier, validate_item_batch,
    validate_item_ids, validate_item_json, validate_item_size, validate_metadata,
    validate_references,
};

verus! {

/// Two texts one after the other have the bytes of the one and then those of the other.
pub proof fn lemma_encoded_one_after_the_other(first: Seq<char>, second: Seq<char>)
    ensures
        encode_utf8(first + second) == encode_utf8(first) + encode_utf8(second),
    decreases first.len(),
{
    if first.len() == 0 {
        assert(first + second =~= second);
        assert(encode_utf8(first) + encode_utf8(second) =~= encode_utf8(second));
    } else {
        let rest = first.drop_first();
        lemma_encoded_one_after_the_other(rest, second);
        assert((first + second).drop_first() =~= rest + second);
        assert(encode_utf8(first + second) =~= encode_utf8(first) + encode_utf8(second));
    }
}

/// Texts of so many bytes together have as many bytes when they are written one after the other.
pub proof fn lemma_total_length_is_that_of_all(texts: Seq<Seq<char>>, count: int)
    requires
        0 <= count <= texts.len(),
    ensures
        total_length(texts, count) == encode_utf8(texts.take(count).flatten()).len(),
    decreases count,
{
    if count == 0 {
        assert(texts.take(0).len() == 0);
    } else {
        lemma_total_length_is_that_of_all(texts, count - 1);
        assert(texts.take(count) =~= texts.take(count - 1).push(texts[count - 1]));
        texts.take(count - 1).lemma_flatten_push(texts[count - 1]);
        lemma_encoded_one_after_the_other(texts.take(count - 1).flatten(), texts[count - 1]);
    }
}

/// Documents of so many bytes together have as many bytes when they are written one after the
/// other.
pub proof fn lemma_total_size_is_that_of_all(
    documents: Seq<Json>,
    written: Seq<Seq<u8>>,
    count: int,
)
    requires
        0 <= count <= documents.len(),
        written.len() == documents.len(),
        forall|i: int| 0 <= i < documents.len() ==> #[trigger] written[i] == json_bytes(documents[i]),
    ensures
        total_size(documents, count) == written.take(count).flatten().len(),
    decreases count,
{
    if count == 0 {
        assert(written.take(0).len() == 0);
    } else {
        lemma_total_size_is_that_of_all(documents, written, count - 1);
        assert(written.take(count) =~= written.take(count - 1).push(written[count - 1]));
        written.take(count - 1).lemma_flatten_push(written[count - 1]);
    }
}

/// A character is a control code exactly where its code point is one of U+0000 to U+001F or U+007F
/// to U+009F.
pub proof fn law_control_codes(c: char, answer: bool)
    requires
        call_ensures(is_control, (c,), answer),
    ensures
        answer <==> 0 <= c as u32 <= 0x1f || 0x7f <= c as u32 <= 0x9f,
{
}

/// A text is found to hold a control code exactly where the code point of one of its characters is
/// in U+0000 to U+001F or U+007F to U+009F.
pub proof fn law_texts_with_control_codes(text: &str, answer: bool)
    requires
        call_ensures(contains_control, (text,), answer),
    ensures
        answer <==> exists|k: int|
            0 <= k < text@.len() && ((#[trigger] text@[k]) as u32 <= 0x1f || 0x7f <= text@[k] as u32
                <= 0x9f),
{
    if has_control(text@) {
        let k = choose|k: int| 0 <= k < text@.len() && is_control_char(#[trigger] text@[k]);
        assert(text@[k] as u32 <= 0x1f || 0x7f <= text@[k] as u32 <= 0x9f);
    } else {
        assert forall|k: int| 0 <= k < text@.len() implies !((#[trigger] text@[k]) as u32 <= 0x1f
            || 0x7f <= text@[k] as u32 <= 0x9f) by {
            assert(!is_control_char(text@[k]));
        }
    }
}

/// The length of a text is that of its encoding in UTF-8, and two texts that are joined have the
/// characters of the one and then those of the other.
pub proof fn law_texts_are_measured_and_joined(
    first: &str,
    second: &str,
    whole: String,
    text: &str,
    length: usize,
)
    requires
        call_ensures(joined, (first, second), whole),
        text@ == whole@,
        call_ensures(byte_len, (text,), length),
    ensures
        whole@.len() == first@.len() + second@.len(),
        forall|k: int| 0 <= k < first@.len() ==> whole@[k] == first@[k],
        forall|k: int|
            0 <= k < second@.len() ==> #[trigger] whole@[first@.len() + k] == second@[k],
        length == encode_utf8(whole@).len(),
        length == encode_utf8(first@).len() + encode_utf8(second@).len(),
{
    lemma_encoded_one_after_the_other(first@, second@);
}

/// An account name that is not empty, has 4096 bytes at most and holds no control code is accepted.
/// Any other is refused for the first of these that it lacks.
pub proof fn law_account_check(account: &str, result: Result<(), Error>)
    requires
        call_ensures(validate_account, (account,), result),
    ensures
        account@.len() == 0 ==> (result matches Err(Error::InvalidArgument(message)) && message@
            == "account must not be empty"@),
        account@.len() > 0 && encode_utf8(account@).len() > 4096 ==> (result matches Err(
            Error::InvalidArgument(message),
        ) && message@ == "account exceeds 4096 bytes"@),
        account@.len() > 0 && encode_utf8(account@).len() <= 4096 && (exists|k: int|
            0 <= k < account@.len() && ((#[trigger] account@[k]) as u32 <= 0x1f || 0x7f
                <= account@[k] as u32 <= 0x9f)) ==> (result matches Err(
            Error::InvalidArgument(message),
        ) && message@ == "account must not contain control characters"@),
        account@.len() > 0 && encode_utf8(account@).len() <= 4096 && (forall|k: int|
            0 <= k < account@.len() ==> !(
                (#[trigger] account@[k]) as u32 <= 0x1f
                || 0x7f <= account@[k] as u32 <= 0x9f)) ==> result is Ok,
{
    assert(outcome(result) is Ok <==> result is Ok);
    if exists|k: int|
        0 <= k < account@.len() && ((#[trigger] account@[k]) as u32 <= 0x1f || 0x7f
            <= account@[k] as u32 <= 0x9f) {
        let k = choose|k: int|
            0 <= k < account@.len() && ((#[trigger] account@[k]) as u32 <= 0x1f || 0x7f
                <= account@[k] as u32 <= 0x9f);
        assert(is_control_char(account@[k]));
    }
}

/// An authentication is had for exactly the account names that pass their check, and it is for the
/// account that was named, letter for letter.
pub proof fn law_authentication_is_for_the_account_named(
    account: &str,
    check: Result<(), Error>,
    result: Result<DesktopAuth, Error>,
    named: &str,
)
    requires
        call_ensures(validate_account, (account,), check),
        call_ensures(DesktopAuth::new, (account,), result),
        result matches Ok(auth) ==> call_ensures(DesktopAuth::account, (&auth,), named),
    ensures
        result is Ok <==> check is Ok,
        result matches Ok(auth) ==> auth@ == account@ && named@ == account@,
        result matches Err(error) ==> (check matches Err(refusal) && error@ == refusal@),
{
    assert(outcome(check) is Ok <==> check is Ok);
}

/// A name or a version of an integration that is not empty, has 1024 bytes at most and holds no
/// control code is accepted. Any other is refused as invalid, under its label.
pub proof fn law_metadata_check(label: &str, value: &str, result: Result<(), Error>)
    requires
        call_ensures(validate_metadata, (label, value), result),
    ensures
        value@.len() > 0 && encode_utf8(value@).len() <= 1024 && (forall|k: int|
            0 <= k < value@.len() ==> !(
                (#[trigger] value@[k]) as u32 <= 0x1f
                || 0x7f <= value@[k] as u32 <= 0x9f)) ==> result is Ok,
        value@.len() == 0 || encode_utf8(value@).len() > 1024 || (exists|k: int|
            0 <= k < value@.len() && ((#[trigger] value@[k]) as u32 <= 0x1f || 0x7f
                <= value@[k] as u32 <= 0x9f)) ==> (result matches Err(
            Error::InvalidArgument(message),
        ) && message@ == "invalid "@ + label@),
{
    assert(outcome(result) is Ok <==> result is Ok);
    if exists|k: int|
        0 <= k < value@.len() && ((#[trigger] value@[k]) as u32 <= 0x1f || 0x7f
            <= value@[k] as u32 <= 0x9f) {
        let k = choose|k: int|
            0 <= k < value@.len() && ((#[trigger] value@[k]) as u32 <= 0x1f || 0x7f
                <= value@[k] as u32 <= 0x9f);
        assert(is_control_char(value@[k]));
    }
}

/// An identifier of one to 4096 bytes is accepted, whatever its characters. Any other is refused
/// under the name of what it identifies.
pub proof fn law_identifier_check(kind: &str, value: &str, result: Result<(), Error>)
    requires
        call_ensures(validate_identifier, (kind, value), result),
    ensures
        value@.len() > 0 && encode_utf8(value@).len() <= 4096 ==> result is Ok,
        value@.len() == 0 || encode_utf8(value@).len() > 4096 ==> (result matches Err(
            Error::InvalidArgument(message),
        ) && message@ == kind@ + " is empty or too large"@),
{
    assert(outcome(result) is Ok <==> result is Ok);
}

/// A batch of one to 100 references, each of which begins with `op://`, has 4096 bytes at most and
/// holds no control code, and which have 131072 bytes at most when written one after the other, is
/// accepted. No other is.
pub proof fn law_references_accepted(
    references: &[String],
    texts: Seq<Seq<char>>,
    result: Result<(), Error>,
)
    requires
        call_ensures(validate_references, (references,), result),
        texts.len() == references@.len(),
        forall|i: int| 0 <= i < texts.len() ==> #[trigger] texts[i] == references@[i]@,
    ensures
        result is Ok <==> {
            &&& 1 <= texts.len() <= 100
            &&& encode_utf8(texts.flatten()).len() <= 131072
            &&& forall|i: int|
                0 <= i < texts.len() ==> "op://"@.is_prefix_of(#[trigger] texts[i])
            &&& forall|i: int| 0 <= i < texts.len() ==> encode_utf8(#[trigger] texts[i]).len() <= 4096
            &&& forall|i: int, k: int|
                0 <= i < texts.len() && 0 <= k < texts[i].len() ==> !(
                    (#[trigger] texts[i][k]) as u32 <= 0x1f
                    || 0x7f <= texts[i][k] as u32 <= 0x9f)
        },
{
    assert(texts =~= texts_of(references@));
    assert(outcome(result) is Ok <==> result is Ok);
    let count = texts.len() as int;
    assert(texts.take(count) =~= texts);
    lemma_total_length_is_that_of_all(texts, count);
    crate::laws::law_accepted_references(texts);
    assert forall|i: int| 0 <= i < count implies (!has_control(#[trigger] texts[i]) <==> forall|
        k: int,
    |
        0 <= k < texts[i].len() ==> !(
            (#[trigger] texts[i][k]) as u32 <= 0x1f
            || 0x7f <= texts[i][k] as u32 <= 0x9f)) by {
        if !has_control(texts[i]) {
            assert forall|k: int| 0 <= k < texts[i].len() implies !(
                (#[trigger] texts[i][k]) as u32 <= 0x1f
                || 0x7f <= texts[i][k] as u32 <= 0x9f) by {
                assert(!is_control_char(texts[i][k]));
            }
        }
    }
}

/// A batch of references is refused for the first reference with a fault, and that reference for
/// the first of its faults. A batch that has no reference or more than 100 is refused for that.
pub proof fn law_references_refused(references: &[String], index: int, result: Result<(), Error>)
    requires
        call_ensures(validate_references, (references,), result),
        0 <= index < references@.len(),
        forall|j: int| 0 <= j < index ==> "op://"@.is_prefix_of((#[trigger] references@[j])@),
        forall|j: int|
            0 <= j < index ==> encode_utf8((#[trigger] references@[j])@).len() <= 4096,
        forall|j: int, k: int|
            0 <= j < index && 0 <= k < references@[j]@.len() ==> !(
                (#[trigger] references@[j]@[k]) as u32 <= 0x1f
                || 0x7f <= references@[j]@[k] as u32 <= 0x9f),
        encode_utf8(
            Seq::new(index as nat, |j: int| references@[j]@).flatten(),
        ).len() <= 131072,
    ensures
        references@.len() > 100 ==> (result matches Err(Error::InvalidArgument(message))
            && message@ == "references must contain at most 100 entries"@),
        references@.len() <= 100 ==> {
            let reference = references@[index]@;
            let fits = encode_utf8(reference).len() <= 4096;
            let clean = forall|k: int|
                0 <= k < reference.len() ==> !(
                    (#[trigger] reference[k]) as u32 <= 0x1f
                    || 0x7f <= reference[k] as u32 <= 0x9f);
            let all = Seq::new((index + 1) as nat, |j: int| references@[j]@);
            &&& !"op://"@.is_prefix_of(reference) ==> (result matches Err(
                Error::InvalidArgument(message),
            ) && message@ == "secret references must start with op://"@)
            &&& "op://"@.is_prefix_of(reference) && !fits ==> (result matches Err(
                Error::InvalidArgument(message),
            ) && message@ == "secret reference exceeds 4096 bytes"@)
            &&& "op://"@.is_prefix_of(reference) && fits && !clean ==> (result matches Err(
                Error::InvalidArgument(message),
            ) && message@ == "secret references must not contain control characters"@)
            &&& "op://"@.is_prefix_of(reference) && fits && clean && encode_utf8(
                all.flatten(),
            ).len() > 131072 ==> (result matches Err(Error::InvalidArgument(message)) && message@
                == "secret references exceed 131072 bytes in total"@)
        },
{
    let texts = texts_of(references@);
    assert(outcome(result) is Ok <==> result is Ok);
    if references@.len() <= 100 {
        let before = Seq::new(index as nat, |j: int| references@[j]@);
        let all = Seq::new((index + 1) as nat, |j: int| references@[j]@);
        assert(before =~= texts.take(index));
        assert(all =~= texts.take(index + 1));
        lemma_total_length_is_that_of_all(texts, index);
        lemma_total_length_is_that_of_all(texts, index + 1);
        let reference = references@[index]@;
        assert(texts[index] == reference);
        if !has_control(reference) {
            assert forall|k: int| 0 <= k < reference.len() implies !(
                (#[trigger] reference[k]) as u32 <= 0x1f
                || 0x7f <= reference[k] as u32 <= 0x9f) by {
                assert(!is_control_char(reference[k]));
            }
        }
        let faults = reference_faults(texts, index);
        assert forall|j: int| 0 <= j < index implies (#[trigger] faults[j]) is None by {
            assert(texts[j] == references@[j]@);
            lemma_total_length_is_that_of_all(texts, j + 1);
            crate::laws::lemma_total_length_grows(texts, j + 1, index);
            assert forall|k: int| 0 <= k < texts[j].len() implies !is_control_char(
                #[trigger] texts[j][k],
            ) by {
                assert(references@[j]@[k] == texts[j][k]);
            }
            assert(reference_fault(texts, j) is None);
        }
        lemma_no_first_fault(faults);
        crate::validate::lemma_references_verdict(texts, index);
    }
}

/// A batch without references is refused for that.
pub proof fn law_no_references_refused(references: &[String], result: Result<(), Error>)
    requires
        call_ensures(validate_references, (references,), result),
        references@.len() == 0,
    ensures
        result matches Err(Error::InvalidArgument(message)) && message@
            == "references must not be empty"@,
{
    assert(texts_of(references@).len() == 0);
    assert(outcome(result) is Ok <==> result is Ok);
}

/// An object that is written with 1048576 bytes at most is accepted as an item, whatever it holds.
/// A value that is not an object is refused for that, and an object that is larger for its size.
pub proof fn law_item_check(kind: &str, value: &Value, result: Result<(), Error>)
    requires
        call_ensures(validate_item_json, (kind, value), result),
    ensures
        json_of(*value) is Object && json_bytes(json_of(*value)).len() <= 1048576 ==> result is Ok,
        !(json_of(*value) is Object) ==> (result matches Err(Error::InvalidArgument(message))
            && message@ == kind@ + " must be a JSON object"@),
        json_of(*value) is Object && json_bytes(json_of(*value)).len() > 1048576 ==> (
        result matches Err(Error::InvalidArgument(message)) && message@ == kind@
            + " exceeds 1048576 bytes"@),
{
    assert(outcome(result) is Ok <==> result is Ok);
}

/// An item of 1048576 bytes is not too large, and one of more is.
pub proof fn law_item_size_check(kind: &str, size: usize, result: Result<(), Error>)
    requires
        call_ensures(validate_item_size, (kind, size), result),
    ensures
        size <= 1048576 ==> result is Ok,
        size > 1048576 ==> (result matches Err(Error::InvalidArgument(message)) && message@ == kind@
            + " exceeds 1048576 bytes"@),
{
    assert(outcome(result) is Ok <==> result is Ok);
}

/// Sizes are added up as long as the sum is 8388608 at most.
pub proof fn law_batch_sizes_are_added(
    kind: &str,
    total: usize,
    size: usize,
    result: Result<usize, Error>,
)
    requires
        call_ensures(add_batch_size, (kind, total, size), result),
    ensures
        total + size <= 8388608 ==> (result matches Ok(sum) && sum == total + size),
        total + size > 8388608 ==> (result matches Err(Error::InvalidArgument(message)) && message@
            == kind@ + " exceeds 8388608 bytes"@),
{
}

/// A batch of one to 100 objects, each of which is written with 1048576 bytes at most and all of
/// which with 8388608 at most, is accepted. No other is.
pub proof fn law_items_accepted(
    kind: &str,
    values: &[Value],
    written: Seq<Seq<u8>>,
    result: Result<(), Error>,
)
    requires
        call_ensures(validate_item_batch, (kind, values), result),
        written.len() == values@.len(),
        forall|i: int|
            0 <= i < written.len() ==> #[trigger] written[i] == json_bytes(json_of(values@[i])),
    ensures
        result is Ok <==> {
            &&& 1 <= values@.len() <= 100
            &&& written.flatten().len() <= 8388608
            &&& forall|i: int| 0 <= i < values@.len() ==> json_of(#[trigger] values@[i]) is Object
            &&& forall|i: int| 0 <= i < values@.len() ==> (#[trigger] written[i]).len() <= 1048576
        },
{
    let items = jsons_of(values@);
    let count = items.len() as int;
    assert(outcome(result) is Ok <==> result is Ok);
    crate::laws::law_accepted_items(kind@, items);
    assert forall|i: int| 0 <= i < count implies #[trigger] written[i] == json_bytes(items[i]) by {
        assert(items[i] == json_of(values@[i]));
    }
    lemma_total_size_is_that_of_all(items, written, count);
    assert(written.take(count) =~= written);
    if result is Ok {
        assert forall|i: int| 0 <= i < count implies json_of(#[trigger] values@[i]) is Object by {
            assert(items[i] is Object);
        }
        assert forall|i: int| 0 <= i < count implies (#[trigger] written[i]).len() <= 1048576 by {
            assert(items[i] is Object);
        }
    } else if (forall|i: int| 0 <= i < count ==> json_of(#[trigger] values@[i]) is Object)
        && forall|i: int| 0 <= i < count ==> (#[trigger] written[i]).len() <= 1048576 {
        assert forall|i: int| 0 <= i < count implies {
            let item = #[trigger] items[i];
            item is Object && json_bytes(item).len() <= 1048576
        } by {
            assert(json_of(values@[i]) is Object);
            assert(written[i].len() <= 1048576);
        }
    }
}

/// A batch of items is refused for the first item with a fault. A batch that has no item or more
/// than 100 is refused for that.
pub proof fn law_items_refused(
    kind: &str,
    values: &[Value],
    written: Seq<Seq<u8>>,
    index: int,
    result: Result<(), Error>,
)
    requires
        call_ensures(validate_item_batch, (kind, values), result),
        written.len() == values@.len(),
        forall|i: int|
            0 <= i < written.len() ==> #[trigger] written[i] == json_bytes(json_of(values@[i])),
        0 <= index <= values@.len(),
        forall|j: int| 0 <= j < index ==> json_of(#[trigger] values@[j]) is Object,
        forall|j: int| 0 <= j < index ==> (#[trigger] written[j]).len() <= 1048576,
        written.take(index).flatten().len() <= 8388608,
    ensures
        values@.len() == 0 || values@.len() > 100 ==> (result matches Err(
            Error::InvalidArgument(message),
        ) && message@ == kind@ + " must contain between 1 and 100 items"@),
        1 <= values@.len() <= 100 && index < values@.len() ==> {
            let item = json_of(values@[index]);
            &&& !(item is Object) ==> (result matches Err(Error::InvalidArgument(message))
                && message@ == "item"@ + " must be a JSON object"@)
            &&& item is Object && json_bytes(item).len() > 1048576 ==> (result matches Err(
                Error::InvalidArgument(message),
            ) && message@ == "item"@ + " exceeds 1048576 bytes"@)
            &&& item is Object && json_bytes(item).len() <= 1048576 && written.take(
                index + 1,
            ).flatten().len() > 8388608 ==> (result matches Err(Error::InvalidArgument(message))
                && message@ == kind@ + " exceeds 8388608 bytes"@)
        },
{
    let items = jsons_of(values@);
    assert(outcome(result) is Ok <==> result is Ok);
    assert forall|i: int| 0 <= i < items.len() implies #[trigger] written[i] == json_bytes(
        items[i],
    ) by {
        assert(items[i] == json_of(values@[i]));
    }
    if 1 <= values@.len() <= 100 && index < values@.len() {
        lemma_total_size_is_that_of_all(items, written, index);
        lemma_total_size_is_that_of_all(items, written, index + 1);
        assert(items[index] == json_of(values@[index]));
        let faults = item_faults(kind@, items, index);
        assert forall|j: int| 0 <= j < index implies (#[trigger] faults[j]) is None by {
            assert(items[j] == json_of(values@[j]));
            assert(written[j] == json_bytes(items[j]));
            crate::laws::lemma_total_size_grows(items, j + 1, index);
            assert(item_fault(kind@, items, j) is None);
        }
        lemma_no_first_fault(faults);
        crate::validate::lemma_batch_verdict(kind@, items, index);
    }
}

/// A batch of one to 100 identifiers, each of one to 4096 bytes, is accepted and comes back as it
/// is: the same identifiers in the same order.
pub proof fn law_item_ids_accepted(item_ids: &[&str], result: Result<Vec<String>, Error>)
    requires
        call_ensures(validate_item_ids, (item_ids,), result),
    ensures
        result is Ok <==> {
            &&& 1 <= item_ids@.len() <= 100
            &&& forall|i: int|
                0 <= i < item_ids@.len() ==> (#[trigger] item_ids@[i])@.len() > 0 && encode_utf8(
                    item_ids@[i]@,
                ).len() <= 4096
        },
        result matches Ok(ids) ==> {
            &&& ids@.len() == item_ids@.len()
            &&& forall|i: int| 0 <= i < ids@.len() ==> (#[trigger] ids@[i])@ == item_ids@[i]@
        },
{
    let texts = slices_of(item_ids@);
    crate::laws::law_accepted_item_ids(texts);
    assert forall|i: int| 0 <= i < texts.len() implies #[trigger] texts[i] == item_ids@[i]@ by {}
    if result is Ok {
        let ids = result->Ok_0;
        assert(texts_of(ids@).len() == ids@.len());
        assert forall|i: int| 0 <= i < ids@.len() implies (#[trigger] ids@[i])@ == item_ids@[i]@ by {
            assert(texts_of(ids@)[i] == texts[i]);
        }
        assert forall|i: int| 0 <= i < item_ids@.len() implies (#[trigger] item_ids@[i])@.len() > 0
            && encode_utf8(item_ids@[i]@).len() <= 4096 by {
            assert(texts[i].len() > 0);
        }
    }
}

/// A batch of identifiers is refused for the first that is empty or too large. A batch that has no
/// identifier or more than 100 is refused for that.
pub proof fn law_item_ids_refused(
    item_ids: &[&str],
    index: int,
    result: Result<Vec<String>, Error>,
)
    requires
        call_ensures(validate_item_ids, (item_ids,), result),
    ensures
        item_ids@.len() == 0 || item_ids@.len() > 100 ==> (result matches Err(
            Error::InvalidArgument(message),
        ) && message@ == "item batch must contain between 1 and 100 IDs"@),
        1 <= item_ids@.len() <= 100 && 0 <= index < item_ids@.len() && (item_ids@[index]@.len() == 0
            || encode_utf8(item_ids@[index]@).len() > 4096) ==> (result matches Err(
            Error::InvalidArgument(message),
        ) && message@ == "item ID"@ + " is empty or too large"@),
{
    let texts = slices_of(item_ids@);
    if 1 <= item_ids@.len() <= 100 && 0 <= index < item_ids@.len() && (item_ids@[index]@.len() == 0
        || encode_utf8(item_ids@[index]@).len() > 4096) {
        assert(texts[index] == item_ids@[index]@);
        let faults = item_id_faults(texts, texts.len() as int);
        assert(faults[index] is Some);
        lemma_no_first_fault(faults);
        crate::laws::lemma_first_fault_is_a_fault(faults);
        let i = choose|i: int| 0 <= i < faults.len() && #[trigger] faults[i] == first_fault(faults);
        assert(faults[i] is Some);
    }
}

} // verus!
