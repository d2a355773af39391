//! The outcome of validating a message, and the capability every validator
//! offers: bytes in, outcome out.

use vstd::prelude::*;

pub mod json;

verus! {

/// Why a message was rejected.
pub enum AlicaMessageValidationError {
    /// The message, or a field of it, is present but malformed. Carries a
    /// description for diagnostics.
    InvalidFormat(String),
    /// A required field is absent. Carries the field's name.
    MissingField(String),
}

/// The mathematical value of an [`AlicaMessageValidationError`].
pub enum ValidationFailure {
    InvalidFormat(Seq<char>),
    MissingField(Seq<char>),
}

impl View for AlicaMessageValidationError {
    type V = ValidationFailure;

    open spec fn view(&self) -> ValidationFailure {
        match self {
            AlicaMessageValidationError::InvalidFormat(description) => ValidationFailure::InvalidFormat(
                description@,
            ),
            AlicaMessageValidationError::MissingField(field) => ValidationFailure::MissingField(
                field@,
            ),
        }
    }
}

pub type AlicaMessageValidationResult = Result<(), AlicaMessageValidationError>;

/// The mathematical value of an [`AlicaMessageValidationResult`]: valid, or
/// invalid with exactly one failure.
pub type Outcome = Result<(), ValidationFailure>;

/// The outcome that a validation result stands for.
pub open spec fn outcome_of(result: AlicaMessageValidationResult) -> Outcome {
    match result {
        Ok(_) => Ok(()),
        Err(error) => Err(error@),
    }
}

/// The text that introduces the name of a missing field.
pub open spec fn missing_field_prefix() -> Seq<char> {
    "Required field missing: "@
}

impl ValidationFailure {
    /// The human-readable text of a failure: the description of a malformed
    /// message as it is, the name of a missing field behind a fixed prefix.
    pub open spec fn message(self) -> Seq<char> {
        match self {
            ValidationFailure::InvalidFormat(description) => description,
            ValidationFailure::MissingField(field) => missing_field_prefix() + field,
        }
    }
}

impl AlicaMessageValidationError {
    /// The human-readable text of this failure.
    pub fn message(&self) -> (text: String)
        ensures
            text@ == self@.message(),
    {
        match self {
            AlicaMessageValidationError::InvalidFormat(description) => description.clone(),
            AlicaMessageValidationError::MissingField(field) => {
                let mut text = "Required field missing: ".to_owned();
                text.append(field.as_str());
                text
            },
        }
    }
}

impl From<AlicaMessageValidationError> for String {
    /// The human-readable text of a failure, as [`AlicaMessageValidationError::message`]
    /// gives it.
    fn from(error: AlicaMessageValidationError) -> (text: String)
        ensures
            text@ == error@.message(),
    {
        error.message()
    }
}

impl vstd::std_specs::convert::FromSpecImpl<AlicaMessageValidationError> for String {
    open spec fn obeys_from_spec() -> bool {
        false
    }

    open spec fn from_spec(error: AlicaMessageValidationError) -> String {
        arbitrary()
    }
}

/// A component that judges a message given as raw bytes.
///
/// Validators compose through this capability alone: the check of a list
/// holds some validator and hands it each element as bytes, without knowing
/// which schema it stands for.
pub trait AlicaMessageJsonValidator {
    /// Whether this validator states what it does: whether [`Self::outcome`]
    /// is the outcome of every call of [`Self::validate`]. A validator that
    /// says nothing more states nothing.
    open spec fn is_specified(&self) -> bool {
        false
    }

    /// The outcome this validator reaches on `message`, where it states one.
    open spec fn outcome(&self, message: Seq<u8>) -> Outcome {
        arbitrary()
    }

    fn validate(&self, message: &[u8]) -> (result: AlicaMessageValidationResult)
        ensures
            self.is_specified() ==> outcome_of(result) == self.outcome(message@),
    ;
}

/// What a validator does, as a function from messages to outcomes.
pub open spec fn outcomes<V: AlicaMessageJsonValidator + ?Sized>(validator: &V) -> spec_fn(
    Seq<u8>,
) -> Outcome {
    |message: Seq<u8>| validator.outcome(message)
}

} // verus!
