//! Classification of a response body: the expected value, an error that the
//! API reported in its error envelope, or the failure to decode the body.
//!
//! A body is first decoded as the expected schema. Only when it is
//! well-formed JSON of another shape is it decoded again, as the error
//! envelope; a recognised message there becomes a `RuntimeError`, and in
//! every other case the first decode error is what the caller sees.
use crate::error::{RuntimeError, RuntimeErrorKind};
use crate::schema::GitHubError;
use crate::text::same_text;
use vstd::prelude::*;

verus! {

#[verifier::external_type_specification]
#[verifier::external_body]
pub struct ExJsonError(serde_json::Error);

/// Whether an error of the JSON codec reports well-formed input whose shape
/// did not match the target type; it depends on the error's code alone.
pub uninterp spec fn json_error_is_data(e: serde_json::Error) -> bool;

/// Relies on `serde_json::Error::is_data`: whether the input was
/// well-formed JSON whose shape did not match the target type.
#[verifier::external_body]
fn is_data_error(e: &serde_json::Error) -> (r: bool)
    ensures
        r == json_error_is_data(*e),
{
    e.is_data()
}

/// What a decode error records.
pub struct DecodeErrorView {
    pub shape_mismatch: bool,
    pub source: serde_json::Error,
}

/// A failed decode of a body, and whether the body was well-formed JSON of
/// the wrong shape (as opposed to malformed or truncated text).
#[derive(Debug)]
pub struct DecodeError {
    shape_mismatch: bool,
    source: serde_json::Error,
}

impl View for DecodeError {
    type V = DecodeErrorView;

    closed spec fn view(&self) -> DecodeErrorView {
        DecodeErrorView { shape_mismatch: self.shape_mismatch, source: self.source }
    }
}

impl DecodeError {
    /// Wraps an error of the JSON codec, recording its category.
    pub fn from_json(source: serde_json::Error) -> (r: Self)
        ensures
            r@.source == source,
            r@.shape_mismatch == json_error_is_data(source),
    {
        let shape_mismatch = is_data_error(&source);
        DecodeError { shape_mismatch, source }
    }

    /// Whether the body was well-formed JSON of the wrong shape.
    pub fn shape_mismatch(&self) -> (r: bool)
        ensures
            r == self@.shape_mismatch,
    {
        self.shape_mismatch
    }

    /// The error of the JSON codec.
    pub fn source(&self) -> (r: &serde_json::Error)
        ensures
            *r == self@.source,
    {
        &self.source
    }
}

/// Why an endpoint call failed.
#[derive(Debug)]
pub enum CallError {
    /// The request could not be sent or its response could not be read.
    Transport(reqwest::Error),
    /// The body did not decode as the expected value.
    Decode(serde_json::Error),
    /// The API reported a failure that this client recognises.
    Runtime(RuntimeError),
}

/// The runtime error named by an envelope's message, if any.
pub open spec fn runtime_kind_for(message: Seq<char>) -> Option<RuntimeErrorKind> {
    if message == "Bad credentials"@ {
        Some(RuntimeErrorKind::BadCredentials)
    } else if message == "Not found"@ {
        Some(RuntimeErrorKind::NotFound)
    } else {
        None
    }
}

/// The runtime error that an error envelope reports, if this client
/// recognises its message.
pub fn check_for_errors(envelope: &GitHubError) -> (r: Option<RuntimeError>)
    ensures
        match runtime_kind_for(envelope.message@) {
            Some(k) => r == Some(RuntimeError { kind: k }),
            None => r is None,
        },
{
    let message = envelope.message.as_str();
    if same_text(message, "Bad credentials") {
        Some(RuntimeError::bad_credentials())
    } else if same_text(message, "Not found") {
        Some(RuntimeError::not_found())
    } else {
        None
    }
}

/// Where classification stands after the body was decoded as the expected
/// value.
#[derive(Debug)]
pub enum Step<T> {
    /// The call's outcome is known.
    Finished(Result<T, CallError>),
    /// The body must be decoded as an error envelope; the error of the first
    /// decode is kept.
    DecodeEnvelope(serde_json::Error),
}

pub open spec fn primary_step<T>(primary: Result<T, DecodeError>) -> Step<T> {
    match primary {
        Ok(v) => Step::Finished(Ok(v)),
        Err(e) => if e@.shape_mismatch {
            Step::DecodeEnvelope(e@.source)
        } else {
            Step::Finished(Err(CallError::Decode(e@.source)))
        },
    }
}

pub open spec fn envelope_outcome<T>(
    original: serde_json::Error,
    envelope: Result<GitHubError, DecodeError>,
) -> Result<T, CallError> {
    match envelope {
        Ok(env) => match runtime_kind_for(env.message@) {
            Some(k) => Err(CallError::Runtime(RuntimeError { kind: k })),
            None => Err(CallError::Decode(original)),
        },
        Err(_) => Err(CallError::Decode(original)),
    }
}

/// The outcome of a call whose body decoded to `primary` as the expected
/// value and, if it is asked for, to `envelope` as an error envelope.
pub open spec fn classification<T>(
    primary: Result<T, DecodeError>,
    envelope: Result<GitHubError, DecodeError>,
) -> Result<T, CallError> {
    match primary_step(primary) {
        Step::Finished(r) => r,
        Step::DecodeEnvelope(original) => envelope_outcome(original, envelope),
    }
}

/// The first step: a decoded value is the result whatever the status of
/// the response; a malformed body is a decode error; a body of another
/// shape asks for the envelope.
pub fn after_primary_decode<T>(primary: Result<T, DecodeError>) -> (r: Step<T>)
    ensures
        r == primary_step(primary),
{
    match primary {
        Ok(v) => Step::Finished(Ok(v)),
        Err(e) => {
            if e.shape_mismatch {
                Step::DecodeEnvelope(e.source)
            } else {
                Step::Finished(Err(CallError::Decode(e.source)))
            }
        },
    }
}

/// The second step: a recognised envelope gives its runtime error, and
/// otherwise the first decode error stands.
pub fn after_envelope_decode<T>(
    original: serde_json::Error,
    envelope: Result<GitHubError, DecodeError>,
) -> (r: Result<T, CallError>)
    ensures
        r == envelope_outcome::<T>(original, envelope),
{
    match envelope {
        Ok(env) => match check_for_errors(&env) {
            Some(e) => Err(CallError::Runtime(e)),
            None => Err(CallError::Decode(original)),
        },
        Err(_) => Err(CallError::Decode(original)),
    }
}

} // verus!

verus! {

/// A body of the wrong shape whose envelope says "Bad credentials" or
/// "Not found" gives that runtime error; any other message gives back the
/// first decode error.
pub proof fn lemma_envelope_messages<T>(primary: Result<T, DecodeError>, envelope: GitHubError)
    requires
        primary is Err,
        primary->Err_0@.shape_mismatch,
    ensures
        envelope.message@ == "Bad credentials"@ ==> classification(primary, Ok(envelope))
            == Err::<T, CallError>(CallError::Runtime(RuntimeError { kind: RuntimeErrorKind::BadCredentials })),
        envelope.message@ == "Not found"@ ==> classification(primary, Ok(envelope))
            == Err::<T, CallError>(CallError::Runtime(RuntimeError { kind: RuntimeErrorKind::NotFound })),
        envelope.message@ != "Bad credentials"@ && envelope.message@ != "Not found"@
            ==> classification(primary, Ok(envelope))
            == Err::<T, CallError>(CallError::Decode(primary->Err_0@.source)),
{
    reveal_strlit("Bad credentials");
    reveal_strlit("Not found");
    assert("Bad credentials"@.len() != "Not found"@.len());
}

/// A body that is not well-formed JSON is a decode error with the codec's
/// own error, and no envelope is decoded.
pub proof fn lemma_malformed_body_skips_envelope<T>(
    primary: Result<T, DecodeError>,
    envelope: Result<GitHubError, DecodeError>,
)
    requires
        primary is Err,
        !primary->Err_0@.shape_mismatch,
    ensures
        primary_step(primary) == Step::<T>::Finished(Err(CallError::Decode(primary->Err_0@.source))),
        classification(primary, envelope) == Err::<T, CallError>(CallError::Decode(primary->Err_0@.source)),
{
}

/// A body that decodes as the expected value is the call's result.
pub proof fn lemma_decoded_value_is_result<T>(value: T, envelope: Result<GitHubError, DecodeError>)
    ensures
        classification(Ok::<T, DecodeError>(value), envelope) == Ok::<T, CallError>(value),
{
}

/// Classifying the same body twice gives the same outcome: the outcome
/// depends on nothing but what the body decodes to.
pub proof fn lemma_classification_repeatable<T>(
    primary1: Result<T, DecodeError>,
    envelope1: Result<GitHubError, DecodeError>,
    primary2: Result<T, DecodeError>,
    envelope2: Result<GitHubError, DecodeError>,
)
    requires
        primary1 == primary2,
        envelope1 == envelope2,
    ensures
        classification(primary1, envelope1) == classification(primary2, envelope2),
{
}

} // verus!
