//! Operations: an invocation, together with what its answer is read as.
use serde_json::Value;
use vstd::prelude::*;

use crate::client::{Client, Invocation, InvocationView, Progress, ProgressView};
use crate::error::{Error, ErrorView};
use crate::json;
use crate::json::{json_of, jsons_of, Json};
use crate::transport::{failure_text_is_encoded, Reply};

verus! {

/// A way to read the answer to an invocation.
pub trait AnswerReader: Sized {
    type Output;

    /// Whether the result is what the answer is read as.
    spec fn reads(&self, answer: Json, result: Result<Self::Output, Error>) -> bool;

    /// Reads the answer.
    fn read(&self, answer: Value) -> (result: Result<Self::Output, Error>)
        ensures
            self.reads(json_of(answer), result),
    ;
}

/// The answer as it is.
pub struct WholeAnswer {}

impl AnswerReader for WholeAnswer {
    type Output = Value;

    open spec fn reads(&self, answer: Json, result: Result<Value, Error>) -> bool {
        result matches Ok(value) && json_of(value) == answer
    }

    fn read(&self, answer: Value) -> (result: Result<Value, Error>) {
        Ok(answer)
    }
}

/// Nothing but that there was an answer.
pub struct NoAnswer {}

impl AnswerReader for NoAnswer {
    type Output = ();

    open spec fn reads(&self, answer: Json, result: Result<(), Error>) -> bool {
        result is Ok
    }

    fn read(&self, _answer: Value) -> (result: Result<(), Error>) {
        Ok(())
    }
}

/// The elements of the answer. An answer that is not an array breaks the protocol, and the text of
/// the error is the one given.
pub struct ListAnswer {
    pub otherwise: &'static str,
}

impl AnswerReader for ListAnswer {
    type Output = Vec<Value>;

    open spec fn reads(&self, answer: Json, result: Result<Vec<Value>, Error>) -> bool {
        match answer {
            Json::List(elements) => result matches Ok(values) && jsons_of(values@) == elements,
            _ => result matches Err(error) && error@ == ErrorView::Protocol(self.otherwise@),
        }
    }

    fn read(&self, answer: Value) -> (result: Result<Vec<Value>, Error>) {
        match json::as_array(&answer) {
            Some(elements) => Ok(json::duplicates(elements.as_slice())),
            None => Err(Error::Protocol(self.otherwise.to_owned())),
        }
    }
}

/// An operation that is under way, with the message that is to be sent next.
pub struct Operation<R: AnswerReader> {
    invocation: Invocation,
    reader: R,
}

/// What comes after a reply: another message, or the result.
pub enum Step<R: AnswerReader> {
    Send(Operation<R>),
    Done(Result<R::Output, Error>),
}

impl<R: AnswerReader> View for Operation<R> {
    type V = InvocationView;

    closed spec fn view(&self) -> InvocationView {
        self.invocation@
    }
}

/// Whether the step is what an operation with the reader makes of the progress of its invocation.
pub open spec fn step_follows<R: AnswerReader>(
    reader: R,
    progress: ProgressView,
    step: Step<R>,
) -> bool {
    match progress {
        ProgressView::Send(invocation) => {
            &&& step matches Step::Send(operation)
            &&& operation@ == invocation
            &&& operation.reader() == reader
        },
        ProgressView::Done(Ok(answer)) => {
            &&& step matches Step::Done(result)
            &&& reader.reads(answer, result)
        },
        ProgressView::Done(Err(failure)) => {
            &&& step matches Step::Done(Err(error))
            &&& error@ == failure
        },
    }
}

impl<R: AnswerReader> Operation<R> {
    /// How the answer is read.
    pub closed spec fn reader(self) -> R {
        self.reader
    }

    /// The operation that begins with the invocation.
    pub fn new(invocation: Invocation, reader: R) -> (operation: Operation<R>)
        ensures
            operation@ == invocation@,
            operation.reader() == reader,
    {
        Operation { invocation, reader }
    }

    /// The invocation and the reader.
    pub fn into_parts(self) -> (parts: (Invocation, R))
        ensures
            parts.0@ == self@,
            parts.1 == self.reader(),
    {
        (self.invocation, self.reader)
    }

    /// The message to send.
    pub fn message(&self) -> (message: &[u8])
        ensures
            message@ == self@.message,
    {
        self.invocation.message()
    }

    /// Goes on, now that its invocation has made progress.
    pub fn progressed(reader: R, progress: Progress) -> (step: Step<R>)
        ensures
            step_follows(reader, progress@, step),
    {
        match progress {
            Progress::Send(invocation) => Step::Send(Operation { invocation, reader }),
            Progress::Done(Ok(answer)) => Step::Done(reader.read(answer)),
            Progress::Done(Err(error)) => Step::Done(Err(error)),
        }
    }

    /// Goes on after the reply to its message.
    pub fn resume(self, client: &mut Client, reply: Reply) -> (step: Step<R>)
        ensures
            ({
                let (next, progress) = old(client)@.resumed(self@, reply@);
                final(client)@ == next && step_follows(self.reader(), progress, step)
            }),
            failure_text_is_encoded(reply@),
    {
        let progress = client.resume(self.invocation, reply);
        Operation::progressed(self.reader, progress)
    }
}

} // verus!
