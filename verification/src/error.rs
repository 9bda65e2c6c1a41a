//! Errors of the SDK.
use vstd::prelude::*;

use crate::text::joined;

verus! {

/// Errors returned by the SDK.
#[derive(Debug)]
pub enum Error {
    UnsupportedPlatform(&'static str),
    InvalidArgument(String),
    Unavailable(String),
    AuthorizationDenied,
    DesktopSessionExpired,
    SecretResolutionFailed,
    Protocol(String),
}

/// An error, with its message as a sequence of characters.
pub enum ErrorView {
    UnsupportedPlatform(Seq<char>),
    InvalidArgument(Seq<char>),
    Unavailable(Seq<char>),
    AuthorizationDenied,
    DesktopSessionExpired,
    SecretResolutionFailed,
    Protocol(Seq<char>),
}

impl View for Error {
    type V = ErrorView;

    open spec fn view(&self) -> ErrorView {
        match self {
            Error::UnsupportedPlatform(message) => ErrorView::UnsupportedPlatform(message@),
            Error::InvalidArgument(message) => ErrorView::InvalidArgument(message@),
            Error::Unavailable(message) => ErrorView::Unavailable(message@),
            Error::AuthorizationDenied => ErrorView::AuthorizationDenied,
            Error::DesktopSessionExpired => ErrorView::DesktopSessionExpired,
            Error::SecretResolutionFailed => ErrorView::SecretResolutionFailed,
            Error::Protocol(message) => ErrorView::Protocol(message@),
        }
    }
}

impl ErrorView {
    /// The text that is shown for the error.
    pub open spec fn rendered(self) -> Seq<char> {
        match self {
            ErrorView::UnsupportedPlatform(message) => "unsupported platform: "@ + message,
            ErrorView::InvalidArgument(message) => "invalid argument: "@ + message,
            ErrorView::Unavailable(message) => "1Password desktop SDK is unavailable: "@ + message,
            ErrorView::AuthorizationDenied => "1Password desktop authorization was denied"@,
            ErrorView::DesktopSessionExpired => "1Password desktop session expired"@,
            ErrorView::SecretResolutionFailed =>
                "1Password could not resolve one or more secret references"@,
            ErrorView::Protocol(message) => "1Password SDK protocol error: "@ + message,
        }
    }
}

/// A result by the views of its value and of its error.
pub open spec fn outcome<T: View>(result: Result<T, Error>) -> Result<T::V, ErrorView> {
    match result {
        Ok(value) => Ok(value@),
        Err(error) => Err(error@),
    }
}

/// A result that is owed only where a check was passed: the error of the check comes first.
pub open spec fn after<T>(check: Result<(), ErrorView>, result: Result<T, ErrorView>) -> Result<
    T,
    ErrorView,
> {
    match check {
        Ok(_) => result,
        Err(error) => Err(error),
    }
}

/// The earliest fault in a sequence that holds a fault or nothing for each of a list of inputs.
pub open spec fn first_fault(faults: Seq<Option<ErrorView>>) -> Option<ErrorView>
    decreases faults.len(),
{
    if faults.len() == 0 {
        None
    } else {
        match first_fault(faults.drop_last()) {
            Some(fault) => Some(fault),
            None => faults.last(),
        }
    }
}

impl Error {
    /// The text that is shown for the error.
    pub fn to_string(&self) -> (text: String)
        ensures
            text@ == self@.rendered(),
    {
        match self {
            Error::UnsupportedPlatform(message) => joined("unsupported platform: ", message),
            Error::InvalidArgument(message) => joined("invalid argument: ", message.as_str()),
            Error::Unavailable(message) => joined(
                "1Password desktop SDK is unavailable: ",
                message.as_str(),
            ),
            Error::AuthorizationDenied => "1Password desktop authorization was denied".to_owned(),
            Error::DesktopSessionExpired => "1Password desktop session expired".to_owned(),
            Error::SecretResolutionFailed =>
                "1Password could not resolve one or more secret references".to_owned(),
            Error::Protocol(message) => joined("1Password SDK protocol error: ", message.as_str()),
        }
    }
}

/// The error for a message or an answer that breaks the protocol, with the text of what went
/// wrong.
pub fn protocol_error(error: String) -> (result: Error)
    ensures
        result@ == ErrorView::Protocol(error@),
{
    Error::Protocol(error)
}

/// A sequence of faults has no earliest fault exactly where none of its places holds one.
pub proof fn lemma_no_first_fault(faults: Seq<Option<ErrorView>>)
    ensures
        first_fault(faults) is None <==> forall|i: int|
            0 <= i < faults.len() ==> (#[trigger] faults[i]) is None,
    decreases faults.len(),
{
    if faults.len() > 0 {
        let shorter = faults.drop_last();
        lemma_no_first_fault(shorter);
        assert forall|i: int| 0 <= i < shorter.len() implies shorter[i] == faults[i] by {}
        if first_fault(faults) is None {
            assert forall|i: int| 0 <= i < faults.len() implies (#[trigger] faults[i]) is None by {
                if i < shorter.len() {
                    assert(shorter[i] is None);
                }
            }
        } else if forall|i: int| 0 <= i < faults.len() ==> (#[trigger] faults[i]) is None {
            assert(faults.last() is None);
            assert forall|i: int| 0 <= i < shorter.len() implies (#[trigger] shorter[i]) is None by {
                assert(faults[i] is None);
            }
        }
    }
}

/// The earliest fault of a sequence is that of any beginning of it that has one.
pub proof fn lemma_first_fault_of_beginning(faults: Seq<Option<ErrorView>>, count: int)
    requires
        0 <= count <= faults.len(),
        first_fault(faults.take(count)) is Some,
    ensures
        first_fault(faults) == first_fault(faults.take(count)),
    decreases faults.len() - count,
{
    if count < faults.len() {
        assert(faults.take(count + 1).drop_last() =~= faults.take(count));
        lemma_first_fault_of_beginning(faults, count + 1);
    } else {
        assert(faults.take(count) =~= faults);
    }
}

} // verus!
