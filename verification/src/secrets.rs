//! Secret references.
use serde_json::Value;
use vstd::prelude::*;

use crate::client::{Client, ClientView};
use crate::error::{
    after, first_fault, lemma_first_fault_of_beginning, outcome, Error, ErrorView,
};
use crate::json;
use crate::json::{json_of, text_list, Json};
use crate::operation::{AnswerReader, Operation};
use crate::text::{slices_of, texts_of};
use crate::validate::{references_verdict, validate_references};

verus! {

/// Secret-reference operations.
pub struct Secrets<'a> {
    client: &'a Client,
}

impl View for Secrets<'_> {
    type V = ClientView;

    closed spec fn view(&self) -> ClientView {
        self.client@
    }
}

/// The secret that the responses hold for a reference, or the error where they hold none.
pub open spec fn secret_for(responses: Json, reference: Seq<char>) -> Result<
    Seq<char>,
    ErrorView,
> {
    match responses.member(reference) {
        None => Err(ErrorView::Protocol("resolve response is missing a requested reference"@)),
        Some(response) => if response.member("error"@) matches Some(error) && !(error is Null) {
            Err(ErrorView::SecretResolutionFailed)
        } else {
            match response.member("content"@) {
                Some(content) if content.member("secret"@) is Some
                    && content.member("secret"@)->Some_0 is Text => Ok(
                    content.member("secret"@)->Some_0->Text_0,
                ),
                _ => Err(ErrorView::Protocol("resolve response is missing secret content"@)),
            }
        },
    }
}

/// What is wrong with the responses for each of the first `count` references.
pub open spec fn secret_faults(responses: Json, references: Seq<Seq<char>>, count: int) -> Seq<
    Option<ErrorView>,
> {
    Seq::new(
        count as nat,
        |i: int|
            match secret_for(responses, references[i]) {
                Ok(_) => None,
                Err(error) => Some(error),
            },
    )
}

/// The secrets that an answer holds for the references, in the order of the references; else what
/// is wrong with the earliest reference for which there is none.
pub open spec fn secrets_for(answer: Json, references: Seq<Seq<char>>) -> Result<
    Seq<Seq<char>>,
    ErrorView,
> {
    match answer.member("individualResponses"@) {
        Some(responses) if responses is Object => match first_fault(
            secret_faults(responses, references, references.len() as int),
        ) {
            Some(fault) => Err(fault),
            None => Ok(
                references.map_values(
                    |reference: Seq<char>| secret_for(responses, reference)->Ok_0,
                ),
            ),
        },
        _ => Err(ErrorView::Protocol("resolve response is missing individualResponses"@)),
    }
}

/// The secret that the response to one reference holds.
pub fn extract_secret(responses: &Value, reference: &str) -> (result: Result<String, Error>)
    ensures
        outcome(result) == secret_for(json_of(*responses), reference@),
{
    let response = match json::get(responses, reference) {
        Some(response) => response,
        None => {
            return Err(
                Error::Protocol("resolve response is missing a requested reference".to_owned()),
            );
        },
    };
    if let Some(error) = json::get(response, "error") {
        if !json::is_null(error) {
            return Err(Error::SecretResolutionFailed);
        }
    }
    proof {
        reveal_strlit("/content/secret");
        reveal_strlit("content");
        reveal_strlit("secret");
        assert("/content/secret"@ =~= seq!['/'] + "content"@ + seq!['/'] + "secret"@);
        json::lemma_pointer_of_two_tokens(json_of(*response), "content"@, "secret"@);
    }
    if let Some(secret) = json::pointer(response, "/content/secret") {
        if let Some(text) = json::as_str(secret) {
            return Ok(text.to_owned());
        }
    }
    Err(Error::Protocol("resolve response is missing secret content".to_owned()))
}

/// The secrets that an answer holds for the references, in the order of the references.
pub fn extract_secrets(result: &Value, references: &[String]) -> (secrets: Result<
    Vec<String>,
    Error,
>)
    ensures
        match secrets {
            Ok(secrets) => secrets_for(json_of(*result), texts_of(references@)) == Ok::<
                Seq<Seq<char>>,
                ErrorView,
            >(texts_of(secrets@)),
            Err(error) => secrets_for(json_of(*result), texts_of(references@)) == Err::<
                Seq<Seq<char>>,
                ErrorView,
            >(error@),
        },
{
    let responses = match json::get(result, "individualResponses") {
        Some(responses) if json::is_object(responses) => responses,
        _ => {
            return Err(
                Error::Protocol("resolve response is missing individualResponses".to_owned()),
            );
        },
    };
    let ghost texts = texts_of(references@);
    let ghost document = json_of(*responses);
    let mut secrets: Vec<String> = Vec::new();
    for i in 0..references.len()
        invariant
            texts == texts_of(references@),
            document == json_of(*responses),
            document is Object,
            json_of(*result).member("individualResponses"@) == Some(document),
            secrets@.len() == i,
            forall|j: int|
                0 <= j < i ==> secret_for(document, #[trigger] texts[j]) == Ok::<
                    Seq<char>,
                    ErrorView,
                >(secrets@[j]@),
            first_fault(secret_faults(document, texts, i as int)) is None,
    {
        assert(texts[i as int] == references@[i as int]@);
        proof {
            lemma_secret_decides(document, texts, i as int);
        }
        let secret = extract_secret(responses, references[i].as_str())?;
        secrets.push(secret);
    }
    assert(texts_of(secrets@) =~= texts.map_values(
        |reference: Seq<char>| secret_for(document, reference)->Ok_0,
    ));
    Ok(secrets)
}

/// Where the references before the index have their secrets, the one at the index decides.
pub proof fn lemma_secret_decides(responses: Json, references: Seq<Seq<char>>, index: int)
    requires
        0 <= index < references.len(),
        first_fault(secret_faults(responses, references, index)) is None,
    ensures
        secret_for(responses, references[index]) is Ok ==> first_fault(
            secret_faults(responses, references, index + 1),
        ) is None,
        secret_for(responses, references[index]) matches Err(error) ==> first_fault(
            secret_faults(responses, references, references.len() as int),
        ) == Some(error),
{
    let longer = secret_faults(responses, references, index + 1);
    assert(longer.drop_last() =~= secret_faults(responses, references, index));
    if longer.last() is Some {
        let all = secret_faults(responses, references, references.len() as int);
        assert(all.take(index + 1) =~= longer);
        lemma_first_fault_of_beginning(all, index + 1);
    }
}

/// The secrets for the references, in their order.
pub struct SecretsAnswer {
    pub references: Vec<String>,
}

impl AnswerReader for SecretsAnswer {
    type Output = Vec<String>;

    open spec fn reads(&self, answer: Json, result: Result<Vec<String>, Error>) -> bool {
        match (result, secrets_for(answer, texts_of(self.references@))) {
            (Ok(secrets), Ok(texts)) => texts_of(secrets@) == texts,
            (Err(error), Err(failure)) => error@ == failure,
            _ => false,
        }
    }

    fn read(&self, answer: Value) -> (result: Result<Vec<String>, Error>) {
        extract_secrets(&answer, self.references.as_slice())
    }
}

/// The first of the secrets for the references.
pub struct SecretAnswer {
    pub all: SecretsAnswer,
}

impl AnswerReader for SecretAnswer {
    type Output = String;

    open spec fn reads(&self, answer: Json, result: Result<String, Error>) -> bool {
        outcome(result) == match secrets_for(answer, texts_of(self.all.references@)) {
            Ok(texts) => first_text(texts),
            Err(error) => Err(error),
        }
    }

    fn read(&self, answer: Value) -> (result: Result<String, Error>) {
        let secrets = self.all.read(answer)?;
        first_secret(secrets)
    }
}

/// The first of the texts.
pub open spec fn first_text(texts: Seq<Seq<char>>) -> Result<Seq<char>, ErrorView> {
    if texts.len() == 0 {
        Err(ErrorView::Protocol("secret response was empty"@))
    } else {
        Ok(texts[0])
    }
}

/// The first of the secrets.
pub fn first_secret(secrets: Vec<String>) -> (result: Result<String, Error>)
    ensures
        outcome(result) == first_text(texts_of(secrets@)),
{
    let mut secrets = secrets;
    if secrets.len() == 0 {
        return Err(Error::Protocol("secret response was empty".to_owned()));
    }
    Ok(secrets.swap_remove(0))
}

/// The parameters that name the references.
pub open spec fn references_parameters(references: Seq<Seq<char>>) -> Json {
    Json::Object(
        map![
            "secret_references"@ => Json::List(
                references.map_values(|reference: Seq<char>| Json::Text(reference)),
            ),
        ],
    )
}

impl<'a> Secrets<'a> {
    /// The secret operations of the client.
    pub fn of(client: &'a Client) -> (secrets: Secrets<'a>)
        ensures
            secrets@ == client@,
    {
        Secrets { client }
    }

    /// Resolve a single `op://` secret reference.
    pub fn resolve(&self, reference: &str) -> (result: Result<Operation<SecretAnswer>, Error>)
        ensures
            outcome(result) == after(
                references_verdict(seq![reference@]),
                Ok(self@.invoked("SecretsResolveAll"@, references_parameters(seq![reference@]))),
            ),
            result matches Ok(operation) ==> texts_of(operation.reader().all.references@)
                == seq![reference@],
    {
        let references: [&str; 1] = [reference];
        assert(slices_of(references@) =~= seq![reference@]);
        let operation = self.resolve_all(&references)?;
        let (invocation, all) = operation.into_parts();
        Ok(Operation::new(invocation, SecretAnswer { all }))
    }

    /// Resolve up to 100 `op://` secret references in one SDK invocation.
    pub fn resolve_all(&self, references: &[&str]) -> (result: Result<
        Operation<SecretsAnswer>,
        Error,
    >)
        ensures
            outcome(result) == after(
                references_verdict(slices_of(references@)),
                Ok(self@.invoked(
                    "SecretsResolveAll"@,
                    references_parameters(slices_of(references@)),
                )),
            ),
            result matches Ok(operation) ==> texts_of(operation.reader().references@)
                == slices_of(references@),
    {
        let mut owned: Vec<String> = Vec::new();
        for i in 0..references.len()
            invariant
                owned@.len() == i,
                forall|j: int| 0 <= j < i ==> (#[trigger] owned@[j])@ == references@[j]@,
        {
            owned.push(references[i].to_owned());
        }
        assert(texts_of(owned@) =~= slices_of(references@));
        validate_references(owned.as_slice())?;
        let mut parameters = json::no_members();
        json::insert(&mut parameters, "secret_references", text_list(&owned));
        let invocation = self.client.invoke("SecretsResolveAll", json::object(parameters))?;
        Ok(Operation::new(invocation, SecretsAnswer { references: owned }))
    }
}

} // verus!
