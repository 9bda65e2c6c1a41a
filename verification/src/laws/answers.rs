//! What answers are read as, said of the calls that read them and of the members of the documents.
use serde_json::Value;
use vstd::prelude::*;

use crate::client::{read_answer, read_client_id};
use crate::error::{lemma_no_first_fault, outcome, Error};
use crate::json::{json_of, json_parsed, jsons_of, u64_parsed, Json};
use crate::operation::{AnswerReader, ListAnswer, NoAnswer, WholeAnswer};
use crate::secrets::{
    extract_secret, extract_secrets, first_secret, lemma_secret_decides, secret_faults, secret_for,
    secrets_for, SecretAnswer, SecretsAnswer,
};
use crate::text::texts_of;

verus! {

/// The answer to an initialization is the number of the client; an answer that is none, or an error
/// in its place, is given back as what it is.
pub proof fn law_client_ids(answer: Result<Vec<u8>, Error>, result: Result<u64, Error>)
    requires
        call_ensures(read_client_id, (answer,), result),
    ensures
        match answer {
            Ok(bytes) => match u64_parsed(bytes@) {
                Ok(number) => result == Ok::<u64, Error>(number),
                Err(reason) => result matches Err(Error::Protocol(message)) && message@ == reason,
            },
            Err(error) => result matches Err(failure) && failure@ == error@,
        },
{
}

/// The answer to a request is the document that its bytes spell; an answer that spells none, or an
/// error in its place, is given back as what it is.
pub proof fn law_answers(answer: Result<Vec<u8>, Error>, result: Result<Value, Error>)
    requires
        call_ensures(read_answer, (answer,), result),
    ensures
        match answer {
            Ok(bytes) => match json_parsed(bytes@) {
                Ok(document) => result matches Ok(value) && json_of(value) == document,
                Err(reason) => result matches Err(Error::Protocol(message)) && message@ == reason,
            },
            Err(error) => result matches Err(failure) && failure@ == error@,
        },
{
}

/// An answer that is taken whole is given back with all that it holds.
pub proof fn law_whole_answers(reader: WholeAnswer, answer: Json, result: Result<Value, Error>)
    requires
        reader.reads(answer, result),
    ensures
        result matches Ok(value) && json_of(value) == answer,
{
}

/// Where nothing is asked of an answer, any answer will do.
pub proof fn law_no_answers(reader: NoAnswer, answer: Json, result: Result<(), Error>)
    requires
        reader.reads(answer, result),
    ensures
        result is Ok,
{
}

/// An answer that is an array is given back as its elements, as many and in the same order; any
/// other is refused with the text of the reader.
pub proof fn law_list_answers(reader: ListAnswer, answer: Json, result: Result<Vec<Value>, Error>)
    requires
        reader.reads(answer, result),
    ensures
        answer matches Json::List(elements) ==> (result matches Ok(values) && values@.len()
            == elements.len() && forall|i: int|
            0 <= i < elements.len() ==> json_of(#[trigger] values@[i]) == elements[i]),
        !(answer is List) ==> (result matches Err(Error::Protocol(message)) && message@
            == reader.otherwise@),
{
    if answer is List {
        let values = result->Ok_0;
        assert(jsons_of(values@).len() == values@.len());
        assert forall|i: int| 0 <= i < values@.len() implies json_of(#[trigger] values@[i])
            == answer->List_0[i] by {
            assert(jsons_of(values@)[i] == json_of(values@[i]));
        }
    }
}

/// The secret for a reference is the text under `content` and `secret` of its response, every
/// character of it, whatever the text is.
pub proof fn law_secret_is_given(
    responses: &Value,
    reference: &str,
    all: Map<Seq<char>, Json>,
    response: Map<Seq<char>, Json>,
    content: Map<Seq<char>, Json>,
    secret: Seq<char>,
    result: Result<String, Error>,
)
    requires
        call_ensures(extract_secret, (responses, reference), result),
        json_of(*responses) == Json::Object(all),
        all.contains_key(reference@) && all[reference@] == Json::Object(response),
        response.contains_key("error"@) ==> response["error"@] == Json::Null,
        response.contains_key("content"@) && response["content"@] == Json::Object(content),
        content.contains_key("secret"@) && content["secret"@] == Json::Text(secret),
    ensures
        result matches Ok(text) && text@ == secret,
{
    assert(Json::Object(all).member(reference@) == Some(Json::Object(response)));
    assert(Json::Object(content).member("secret"@) == Some(Json::Text(secret)));
}

/// There is no secret for a reference without a response, nor for one whose response holds an error,
/// nor for one whose response holds no text under `content` and `secret`.
pub proof fn law_secret_is_not_given(
    responses: &Value,
    reference: &str,
    result: Result<String, Error>,
)
    requires
        call_ensures(extract_secret, (responses, reference), result),
    ensures
        match json_of(*responses).member(reference@) {
            None => result matches Err(Error::Protocol(message)) && message@
                == "resolve response is missing a requested reference"@,
            Some(response) => {
                let failed = response.member("error"@) is Some && response.member("error"@) != Some(
                    Json::Null,
                );
                let found = response.member("content"@) matches Some(content) && content.member(
                    "secret"@,
                ) matches Some(Json::Text(_));
                &&& failed ==> (result matches Err(Error::SecretResolutionFailed))
                &&& !failed && !found ==> (result matches Err(Error::Protocol(message)) && message@
                    == "resolve response is missing secret content"@)
                &&& result is Ok ==> !failed && found
            },
        },
{
    assert(outcome(result) is Ok <==> result is Ok);
}

/// Where each reference has its response with its secret in it, the secrets for all of them are
/// given: as many as there are references, and each that of its reference.
pub proof fn law_secrets_of_a_batch(
    answer: &Value,
    references: &[String],
    all: Map<Seq<char>, Json>,
    secrets: Seq<Seq<char>>,
    result: Result<Vec<String>, Error>,
)
    requires
        call_ensures(extract_secrets, (answer, references), result),
        json_of(*answer).member("individualResponses"@) == Some(Json::Object(all)),
        secrets.len() == references@.len(),
        forall|i: int|
            0 <= i < references@.len() ==> {
                let reference = (#[trigger] references@[i])@;
                &&& all.contains_key(reference)
                &&& all[reference].member("error"@) is None || all[reference].member("error"@)
                    == Some(Json::Null)
                &&& all[reference].member("content"@) matches Some(content)
                &&& content.member("secret"@) == Some(Json::Text(secrets[i]))
            },
    ensures
        result matches Ok(texts) && texts@.len() == secrets.len() && forall|i: int|
            0 <= i < secrets.len() ==> (#[trigger] texts@[i])@ == secrets[i],
{
    lemma_secrets_of_a_batch(json_of(*answer), texts_of(references@), all, secrets);
    if result is Ok {
        let texts = result->Ok_0;
        assert(texts_of(texts@) == secrets);
        assert forall|i: int| 0 <= i < secrets.len() implies (#[trigger] texts@[i])@ == secrets[i] by {
            assert(texts_of(texts@)[i] == texts@[i]@);
        }
    }
}

/// Where each reference has its response with its secret in it, the secrets are those.
proof fn lemma_secrets_of_a_batch(
    answer: Json,
    references: Seq<Seq<char>>,
    all: Map<Seq<char>, Json>,
    secrets: Seq<Seq<char>>,
)
    requires
        answer.member("individualResponses"@) == Some(Json::Object(all)),
        secrets.len() == references.len(),
        forall|i: int|
            0 <= i < references.len() ==> {
                let reference = #[trigger] references[i];
                &&& all.contains_key(reference)
                &&& all[reference].member("error"@) is None || all[reference].member("error"@)
                    == Some(Json::Null)
                &&& all[reference].member("content"@) matches Some(content)
                &&& content.member("secret"@) == Some(Json::Text(secrets[i]))
            },
    ensures
        secrets_for(answer, references) matches Ok(texts) && texts == secrets,
{
    let responses = Json::Object(all);
    let faults = secret_faults(responses, references, references.len() as int);
    assert forall|i: int| 0 <= i < references.len() implies secret_for(
        responses,
        #[trigger] references[i],
    ) == Ok::<Seq<char>, crate::error::ErrorView>(secrets[i]) by {
        assert(responses.member(references[i]) == Some(all[references[i]]));
    }
    assert forall|i: int| 0 <= i < faults.len() implies (#[trigger] faults[i]) is None by {
        assert(secret_for(responses, references[i]) is Ok);
    }
    lemma_no_first_fault(faults);
    assert(secrets_for(answer, references)->Ok_0 =~= secrets);
}

/// An answer without an object of responses gives no secrets.
pub proof fn law_no_responses(
    answer: &Value,
    references: &[String],
    result: Result<Vec<String>, Error>,
)
    requires
        call_ensures(extract_secrets, (answer, references), result),
        !(json_of(*answer).member("individualResponses"@) matches Some(Json::Object(_))),
    ensures
        result matches Err(Error::Protocol(message)) && message@
            == "resolve response is missing individualResponses"@,
{
}

/// The first reference for which there is no secret is the one that the error is about.
pub proof fn law_secrets_fail_with_the_first(
    answer: &Value,
    references: &[String],
    responses: &Value,
    names: Seq<&str>,
    found: Seq<String>,
    failure: Error,
    result: Result<Vec<String>, Error>,
)
    requires
        call_ensures(extract_secrets, (answer, references), result),
        found.len() < references@.len(),
        names.len() == references@.len(),
        forall|i: int| 0 <= i < names.len() ==> (#[trigger] names[i])@ == references@[i]@,
        forall|i: int|
            0 <= i < found.len() ==> call_ensures(
                extract_secret,
                (responses, names[i]),
                Ok::<String, Error>(#[trigger] found[i]),
            ),
        call_ensures(
            extract_secret,
            (responses, names[found.len() as int]),
            Err::<String, Error>(failure),
        ),
        json_of(*responses) is Object,
        json_of(*answer).member("individualResponses"@) == Some(json_of(*responses)),
    ensures
        result matches Err(error) && error@ == failure@,
{
    let texts = texts_of(references@);
    let document = json_of(*responses);
    let index = found.len() as int;
    let faults = secret_faults(document, texts, index);
    assert forall|i: int| 0 <= i < index implies (#[trigger] faults[i]) is None by {
        assert(names[i]@ == texts[i]);
        assert(outcome(Ok::<String, Error>(found[i])) is Ok);
        assert(secret_for(document, texts[i]) is Ok);
    }
    lemma_no_first_fault(faults);
    assert(names[index]@ == texts[index]);
    assert(outcome(Err::<String, Error>(failure)) == Err::<Seq<char>, crate::error::ErrorView>(
        failure@,
    ));
    lemma_secret_decides(document, texts, index);
}

/// The first of some secrets is the one at the beginning; of none there is no first.
pub proof fn law_first_secret(secrets: Vec<String>, result: Result<String, Error>)
    requires
        call_ensures(first_secret, (secrets,), result),
    ensures
        secrets@.len() > 0 ==> (result matches Ok(text) && text@ == secrets@[0]@),
        secrets@.len() == 0 ==> (result matches Err(Error::Protocol(message)) && message@
            == "secret response was empty"@),
{
    assert(texts_of(secrets@).len() == secrets@.len());
}

/// The answer to a batch is read as what the secrets are that it holds for the references.
pub proof fn law_secrets_answers(
    reader: SecretsAnswer,
    references: &[String],
    answer: Value,
    extracted: Result<Vec<String>, Error>,
    result: Result<Vec<String>, Error>,
)
    requires
        reader.reads(json_of(answer), result),
        references@ == reader.references@,
        call_ensures(extract_secrets, (&answer, references), extracted),
    ensures
        match (result, extracted) {
            (Ok(secrets), Ok(others)) => secrets@.len() == others@.len() && forall|i: int|
                0 <= i < secrets@.len() ==> (#[trigger] secrets@[i])@ == others@[i]@,
            (Err(error), Err(failure)) => error@ == failure@,
            _ => false,
        },
{
    if result is Ok && extracted is Ok {
        let secrets = result->Ok_0;
        let others = extracted->Ok_0;
        assert(texts_of(secrets@) == texts_of(others@));
        assert(texts_of(secrets@).len() == secrets@.len());
        assert(texts_of(others@).len() == others@.len());
        assert forall|i: int| 0 <= i < secrets@.len() implies (#[trigger] secrets@[i])@
            == others@[i]@ by {
            assert(texts_of(secrets@)[i] == texts_of(others@)[i]);
        }
    }
}

/// One reference is resolved to exactly the text that the answer holds under `content` and `secret`
/// of the response to it, whatever the text is.
pub proof fn law_one_secret_is_resolved(
    reader: SecretAnswer,
    reference: Seq<char>,
    answer: Map<Seq<char>, Json>,
    all: Map<Seq<char>, Json>,
    response: Map<Seq<char>, Json>,
    content: Map<Seq<char>, Json>,
    secret: Seq<char>,
    result: Result<String, Error>,
)
    requires
        reader.reads(Json::Object(answer), result),
        reader.all.references@.len() == 1,
        reader.all.references@[0]@ == reference,
        answer.contains_key("individualResponses"@) && answer["individualResponses"@]
            == Json::Object(all),
        all.contains_key(reference) && all[reference] == Json::Object(response),
        response.contains_key("error"@) ==> response["error"@] == Json::Null,
        response.contains_key("content"@) && response["content"@] == Json::Object(content),
        content.contains_key("secret"@) && content["secret"@] == Json::Text(secret),
    ensures
        result matches Ok(text) && text@ == secret,
{
    let references = texts_of(reader.all.references@);
    assert(references =~= seq![reference]);
    assert(Json::Object(answer).member("individualResponses"@) == Some(Json::Object(all)));
    assert(all[reference].member("content"@) == Some(Json::Object(content)));
    assert(Json::Object(content).member("secret"@) == Some(Json::Text(secret)));
    lemma_secrets_of_a_batch(Json::Object(answer), references, all, seq![secret]);
}

/// Where the answer holds no secret for the reference that is resolved, the error is the one for
/// that reference.
pub proof fn law_one_secret_is_not_resolved(
    reader: SecretAnswer,
    batch: SecretsAnswer,
    answer: Json,
    failure: Error,
    result: Result<String, Error>,
)
    requires
        reader.reads(answer, result),
        batch == reader.all,
        batch.reads(answer, Err::<Vec<String>, Error>(failure)),
    ensures
        result matches Err(error) && error@ == failure@,
{
}

} // verus!
