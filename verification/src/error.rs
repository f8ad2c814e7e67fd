//! The error vocabulary shared by the supervisor and the relay client.

use crate::text::{decimal, decimal_text};
use std::sync::Arc;
use vstd::prelude::*;
use vstd::std_specs::convert::FromSpecImpl;
use vstd::string::{to_string_from_display_ensures, StringExecFns};

verus! {

/// A property-list error, carried through unopened.
#[verifier::external_type_specification]
#[verifier::external_body]
pub struct ExPlistError(plist::Error);

/// An HTTP client error, carried through unopened.
#[verifier::external_type_specification]
#[verifier::external_body]
pub struct ExRequestError(reqwest::Error);

/// A socket error, carried through unopened.
#[verifier::external_type_specification]
#[verifier::external_body]
pub struct ExSocketError(tokio_tungstenite::tungstenite::Error);

/// A JSON error, carried through unopened.
#[verifier::external_type_specification]
#[verifier::external_body]
pub struct ExJsonError(serde_json::Error);

/// Everything that can go wrong while keeping the relay connection alive.
#[derive(Debug)]
pub enum RelayError {
    /// A property list could not be read or written.
    PlistError(plist::Error),
    /// An HTTP exchange failed.
    RequestError(reqwest::Error),
    /// The validation service answered with a non-zero status.
    NacError(u64),
    /// A caller waited for a refresh longer than the wait budget.
    ResourceTimeout,
    /// The resource failed to generate; the cause is shared among all who ask.
    ResourceFailure(Arc<RelayError>),
    /// Generation hit an internal fault, described as well as it could be.
    ResourcePanic(String),
    /// Marks the wrapped error as final: generation is not retried after it.
    DoNotRetry(Box<RelayError>),
    /// The socket failed.
    WSError(tokio_tungstenite::tungstenite::Error),
    /// A message was not valid JSON of the expected shape.
    JSONError(serde_json::Error),
}

impl From<plist::Error> for RelayError {
    fn from(error: plist::Error) -> (wrapped: RelayError) {
        RelayError::PlistError(error)
    }
}

impl FromSpecImpl<plist::Error> for RelayError {
    open spec fn obeys_from_spec() -> bool {
        true
    }

    open spec fn from_spec(error: plist::Error) -> RelayError {
        RelayError::PlistError(error)
    }
}

impl From<reqwest::Error> for RelayError {
    fn from(error: reqwest::Error) -> (wrapped: RelayError) {
        RelayError::RequestError(error)
    }
}

impl FromSpecImpl<reqwest::Error> for RelayError {
    open spec fn obeys_from_spec() -> bool {
        true
    }

    open spec fn from_spec(error: reqwest::Error) -> RelayError {
        RelayError::RequestError(error)
    }
}

impl From<Arc<RelayError>> for RelayError {
    fn from(error: Arc<RelayError>) -> (wrapped: RelayError) {
        RelayError::ResourceFailure(error)
    }
}

impl FromSpecImpl<Arc<RelayError>> for RelayError {
    open spec fn obeys_from_spec() -> bool {
        true
    }

    open spec fn from_spec(error: Arc<RelayError>) -> RelayError {
        RelayError::ResourceFailure(error)
    }
}

impl From<tokio_tungstenite::tungstenite::Error> for RelayError {
    fn from(error: tokio_tungstenite::tungstenite::Error) -> (wrapped: RelayError) {
        RelayError::WSError(error)
    }
}

impl FromSpecImpl<tokio_tungstenite::tungstenite::Error> for RelayError {
    open spec fn obeys_from_spec() -> bool {
        true
    }

    open spec fn from_spec(error: tokio_tungstenite::tungstenite::Error) -> RelayError {
        RelayError::WSError(error)
    }
}

impl From<serde_json::Error> for RelayError {
    fn from(error: serde_json::Error) -> (wrapped: RelayError) {
        RelayError::JSONError(error)
    }
}

impl FromSpecImpl<serde_json::Error> for RelayError {
    open spec fn obeys_from_spec() -> bool {
        true
    }

    open spec fn from_spec(error: serde_json::Error) -> RelayError {
        RelayError::JSONError(error)
    }
}

impl RelayError {
    /// Whether this error forbids any further attempt.
    pub open spec fn is_final(self) -> bool {
        self is DoNotRetry
    }

    /// The words of this library in how the error reads: what kind of error
    /// it is, with its number or description where it is the library's own.
    pub open spec fn heading(self) -> Seq<char>
        decreases self,
    {
        match self {
            RelayError::PlistError(_) => "Plist parsing error: "@,
            RelayError::RequestError(_) => "HTTP error: "@,
            RelayError::NacError(code) => "NAC error: "@ + decimal(code as nat),
            RelayError::ResourceTimeout => "Resource Timeout"@,
            RelayError::ResourceFailure(_) => "Resource Failure"@,
            RelayError::ResourcePanic(description) => "Resource Panic "@ + description@,
            RelayError::DoNotRetry(cause) => "Do not retry "@ + cause.heading(),
            RelayError::WSError(_) => "WS error: "@,
            RelayError::JSONError(_) => "JSON error: "@,
        }
    }

    /// Whether `said` is what the error from outside at the heart of this
    /// error says of itself through its `Display`. Where there is no error
    /// from outside, nothing is said.
    pub open spec fn heart_says(self, said: Seq<char>) -> bool
        decreases self,
    {
        match self {
            RelayError::PlistError(error) => exists|inner: String|
                #[trigger] to_string_from_display_ensures::<plist::Error>(&error, inner) && said
                    == inner@,
            RelayError::RequestError(error) => exists|inner: String|
                #[trigger] to_string_from_display_ensures::<reqwest::Error>(&error, inner) && said
                    == inner@,
            RelayError::WSError(error) => exists|inner: String|
                #[trigger] to_string_from_display_ensures::<
                    tokio_tungstenite::tungstenite::Error,
                >(&error, inner) && said == inner@,
            RelayError::JSONError(error) => exists|inner: String|
                #[trigger] to_string_from_display_ensures::<serde_json::Error>(&error, inner)
                    && said == inner@,
            RelayError::DoNotRetry(cause) => cause.heart_says(said),
            _ => said == Seq::<char>::empty(),
        }
    }

    /// Whether `text` is how this error reads: the heading, and then what
    /// the error from outside has to say, if there is one.
    pub open spec fn reads(self, text: Seq<char>) -> bool {
        exists|said: Seq<char>| #[trigger] self.heart_says(said) && text == self.heading() + said
    }

    /// How this error reads.
    pub fn message(&self) -> (text: String)
        ensures
            self.reads(text@),
        decreases self,
    {
        match self {
            RelayError::PlistError(error) => {
                let inner = error.to_string();
                let text = "Plist parsing error: ".to_owned().concat(inner.as_str());
                assert(to_string_from_display_ensures::<plist::Error>(error, inner));
                assert(self.heart_says(inner@));
                text
            },
            RelayError::RequestError(error) => {
                let inner = error.to_string();
                let text = "HTTP error: ".to_owned().concat(inner.as_str());
                assert(to_string_from_display_ensures::<reqwest::Error>(error, inner));
                assert(self.heart_says(inner@));
                text
            },
            RelayError::NacError(code) => {
                let inner = decimal_text(*code);
                let text = "NAC error: ".to_owned().concat(inner.as_str());
                assert(self.heart_says(Seq::empty()));
                assert(text@ =~= self.heading() + Seq::<char>::empty());
                text
            },
            RelayError::ResourceTimeout => {
                let text = "Resource Timeout".to_owned();
                assert(self.heart_says(Seq::empty()));
                assert(text@ =~= self.heading() + Seq::<char>::empty());
                text
            },
            RelayError::ResourceFailure(_) => {
                let text = "Resource Failure".to_owned();
                assert(self.heart_says(Seq::empty()));
                assert(text@ =~= self.heading() + Seq::<char>::empty());
                text
            },
            RelayError::ResourcePanic(description) => {
                let text = "Resource Panic ".to_owned().concat(description.as_str());
                assert(self.heart_says(Seq::empty()));
                assert(text@ =~= self.heading() + Seq::<char>::empty());
                text
            },
            RelayError::DoNotRetry(cause) => {
                let inner = cause.message();
                let text = "Do not retry ".to_owned().concat(inner.as_str());
                proof {
                    let said = choose|said: Seq<char>|
                        #[trigger] cause.heart_says(said) && inner@ == cause.heading() + said;
                    assert(self.heart_says(said));
                    assert(text@ =~= self.heading() + said);
                }
                text
            },
            RelayError::WSError(error) => {
                let inner = error.to_string();
                let text = "WS error: ".to_owned().concat(inner.as_str());
                assert(to_string_from_display_ensures::<tokio_tungstenite::tungstenite::Error>(
                    error,
                    inner,
                ));
                assert(self.heart_says(inner@));
                text
            },
            RelayError::JSONError(error) => {
                let inner = error.to_string();
                let text = "JSON error: ".to_owned().concat(inner.as_str());
                assert(to_string_from_display_ensures::<serde_json::Error>(error, inner));
                assert(self.heart_says(inner@));
                text
            },
        }
    }

    /// Tells whether this error forbids any further attempt.
    pub fn do_not_retry(&self) -> (r: bool)
        ensures
            r == self.is_final(),
    {
        match self {
            RelayError::DoNotRetry(_) => true,
            _ => false,
        }
    }
}

} // verus!
