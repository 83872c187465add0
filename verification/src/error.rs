//! The closed set of errors a caller can see, and the labelling of transport
//! outcomes into it.

use crate::status::JobKind;
use crate::text::{decimal, decimal_text};
use vstd::prelude::*;
use vstd::string::*;

verus! {

/// HTTP status of a request that lacks valid credentials.
pub const UNAUTHORIZED: u16 = 401;

/// HTTP status of a request that the service turned away for coming too often.
pub const TOO_MANY_REQUESTS: u16 = 429;

/// What a transport reports when a request did not yield a usable response.
#[derive(Clone, Debug, PartialEq, Eq)]
pub struct TransportFailure {
    /// The HTTP status, where a response came back at all.
    pub status: Option<u16>,
    /// Whether a response came back whose body could not be read as what the
    /// protocol expects.
    pub malformed_body: bool,
    /// What went wrong, in the transport's words.
    pub message: String,
    /// The chain of underlying causes, outermost first.
    pub causes: Vec<String>,
}

/// The mathematical content of a [`TransportFailure`].
pub struct TransportFailureView {
    pub status: Option<u16>,
    pub malformed_body: bool,
    pub message: Seq<char>,
    pub causes: Seq<Seq<char>>,
}

impl View for TransportFailure {
    type V = TransportFailureView;

    open spec fn view(&self) -> TransportFailureView {
        TransportFailureView {
            status: self.status,
            malformed_body: self.malformed_body,
            message: self.message@,
            causes: self.causes.deep_view(),
        }
    }
}

/// Everything that can go wrong for a caller of this crate.
#[derive(Clone, Debug, PartialEq, Eq)]
pub enum Error {
    /// The service answered 401: the session is missing or no longer valid.
    AuthenticationError,
    /// The service answered 429. Backing off is left to the caller.
    RateLimited,
    /// The job of this kind that was submitted under this token did not
    /// complete.
    JobFailed(JobKind, String),
    /// A response arrived but lacks what the protocol expects of it.
    InvalidResponseShape(String),
    /// Any other failure of the network or of HTTP.
    TransportError(TransportFailure),
}

/// The mathematical content of an [`Error`].
pub enum ErrorView {
    AuthenticationError,
    RateLimited,
    JobFailed(JobKind, Seq<char>),
    InvalidResponseShape(Seq<char>),
    TransportError(TransportFailureView),
}

impl View for Error {
    type V = ErrorView;

    open spec fn view(&self) -> ErrorView {
        match self {
            Error::AuthenticationError => ErrorView::AuthenticationError,
            Error::RateLimited => ErrorView::RateLimited,
            Error::JobFailed(kind, token) => ErrorView::JobFailed(*kind, token@),
            Error::InvalidResponseShape(detail) => ErrorView::InvalidResponseShape(detail@),
            Error::TransportError(failure) => ErrorView::TransportError(failure@),
        }
    }
}

impl ErrorView {
    /// The one-line description of the error.
    pub open spec fn message(self) -> Seq<char> {
        match self {
            ErrorView::AuthenticationError => {
                "Failed to authenticate user, check your credentials"@
            },
            ErrorView::RateLimited => "Too many requests"@,
            ErrorView::JobFailed(JobKind::Tts, token) => {
                "Tts job '"@ + token + "' was unsuccessful"@
            },
            ErrorView::JobFailed(JobKind::FaceAnimation, token) => {
                "Face animation job was unsuccessful: "@ + token
            },
            ErrorView::InvalidResponseShape(detail) => detail,
            ErrorView::TransportError(failure) => failure.message,
        }
    }

    /// The causes behind the error, outermost first.
    pub open spec fn causes(self) -> Seq<Seq<char>> {
        match self {
            ErrorView::TransportError(failure) => failure.causes,
            _ => Seq::empty(),
        }
    }
}

/// The label a transport failure gets. The statuses 401 and 429 have labels
/// of their own. Of the rest, a body that could not be read makes a response
/// of invalid shape, and every other failure stays a transport error and
/// keeps its detail.
pub open spec fn classify_failure(failure: TransportFailure) -> Error {
    match failure.status {
        Some(code) if code == UNAUTHORIZED => Error::AuthenticationError,
        Some(code) if code == TOO_MANY_REQUESTS => Error::RateLimited,
        _ => if failure.malformed_body {
            Error::InvalidResponseShape(failure.message)
        } else {
            Error::TransportError(failure)
        },
    }
}

impl From<TransportFailure> for Error {
    fn from(failure: TransportFailure) -> (error: Error) {
        match failure.status {
            Some(code) if code == UNAUTHORIZED => Error::AuthenticationError,
            Some(code) if code == TOO_MANY_REQUESTS => Error::RateLimited,
            _ => if failure.malformed_body {
                Error::InvalidResponseShape(failure.message)
            } else {
                Error::TransportError(failure)
            },
        }
    }
}

impl vstd::std_specs::convert::FromSpecImpl<TransportFailure> for Error {
    open spec fn obeys_from_spec() -> bool {
        true
    }

    open spec fn from_spec(failure: TransportFailure) -> Error {
        classify_failure(failure)
    }
}

/// Whether an HTTP status says that the request succeeded.
pub open spec fn is_success_status(status: u16) -> bool {
    200 <= status < 300
}

/// The failure that a status other than 2xx stands for. Its message names
/// the status.
pub open spec fn status_failure(status: u16) -> TransportFailureView {
    TransportFailureView {
        status: Some(status),
        malformed_body: false,
        message: "unexpected HTTP status "@ + decimal_text(status as nat),
        causes: Seq::empty(),
    }
}

/// The error that a status other than 2xx stands for.
pub open spec fn status_error(status: u16) -> ErrorView {
    if status == UNAUTHORIZED {
        ErrorView::AuthenticationError
    } else if status == TOO_MANY_REQUESTS {
        ErrorView::RateLimited
    } else {
        ErrorView::TransportError(status_failure(status))
    }
}

impl TransportFailure {
    /// Reads the HTTP status of a response: nothing for 2xx, and for every
    /// other status the failure that it is.
    pub fn from_status(status: u16) -> (failure: Option<TransportFailure>)
        ensures
            match failure {
                None => is_success_status(status),
                Some(failure) => !is_success_status(status) && failure@ == status_failure(status),
            },
    {
        if 200 <= status && status < 300 {
            None
        } else {
            let mut message = "unexpected HTTP status ".to_owned();
            message.append(decimal(status).as_str());
            let failure = TransportFailure {
                status: Some(status),
                malformed_body: false,
                message,
                causes: Vec::new(),
            };
            assert(failure.causes.deep_view() =~= Seq::empty());
            Some(failure)
        }
    }
}

/// Labels the HTTP status of a response: `Ok` for 2xx, and for every other
/// status the error that the status stands for.
pub fn check_status(status: u16) -> (checked: Result<(), Error>)
    ensures
        match checked {
            Ok(_) => is_success_status(status),
            Err(error) => !is_success_status(status) && error@ == status_error(status),
        },
{
    match TransportFailure::from_status(status) {
        None => Ok(()),
        Some(failure) => Err(Error::from(failure)),
    }
}

/// The text of an error and of the chain of causes behind it: the message, an
/// empty line, then two lines for each cause.
pub open spec fn chain_text(message: Seq<char>, causes: Seq<Seq<char>>) -> Seq<char>
    decreases causes.len(),
{
    if causes.len() == 0 {
        message + "\n\n"@
    } else {
        chain_text(message, causes.drop_last()) + "Caused by:\n\t"@ + causes.last() + "\n"@
    }
}

/// Writes out an error message followed by the causes behind it.
pub fn error_chain_fmt(message: &str, causes: &Vec<String>) -> (text: String)
    ensures
        text@ == chain_text(message@, causes.deep_view()),
{
    let mut text = message.to_owned();
    text.append("\n\n");
    let ghost all = causes.deep_view();
    let mut i: usize = 0;
    while i < causes.len()
        invariant
            i <= causes.len(),
            all == causes.deep_view(),
            text@ == chain_text(message@, all.take(i as int)),
        decreases causes.len() - i,
    {
        text.append("Caused by:\n\t");
        text.append(causes[i].as_str());
        text.append("\n");
        proof {
            let next = all.take(i + 1);
            assert(next.drop_last() =~= all.take(i as int));
            assert(next.last() == causes[i as int]@);
        }
        i += 1;
    }
    assert(all.take(i as int) =~= all);
    text
}

impl Error {
    /// The one-line description of the error.
    pub fn message(&self) -> (text: String)
        ensures
            text@ == self@.message(),
    {
        match self {
            Error::AuthenticationError => {
                "Failed to authenticate user, check your credentials".to_owned()
            },
            Error::RateLimited => "Too many requests".to_owned(),
            Error::JobFailed(JobKind::Tts, token) => {
                let mut text = "Tts job '".to_owned();
                text.append(token.as_str());
                text.append("' was unsuccessful");
                text
            },
            Error::JobFailed(JobKind::FaceAnimation, token) => {
                let mut text = "Face animation job was unsuccessful: ".to_owned();
                text.append(token.as_str());
                text
            },
            Error::InvalidResponseShape(detail) => detail.clone(),
            Error::TransportError(failure) => failure.message.clone(),
        }
    }

    /// The description of the error followed by the causes behind it, as
    /// [`error_chain_fmt`] lays them out.
    pub fn report(&self) -> (text: String)
        ensures
            text@ == chain_text(self@.message(), self@.causes()),
    {
        let message = self.message();
        match self {
            Error::TransportError(failure) => error_chain_fmt(message.as_str(), &failure.causes),
            _ => {
                let none: Vec<String> = Vec::new();
                assert(none.deep_view() =~= Seq::empty());
                error_chain_fmt(message.as_str(), &none)
            },
        }
    }
}

} // verus!
