//! The envelope that carries a message of one agent: who sent it, what kind
//! of message it is, the message itself and when it was sent.

use vstd::prelude::*;

pub mod laws;
pub mod pipe_separated;

verus! {

pub type ParsingResult = Result<TransactionPayload, Error>;

pub type SerializationResult = Result<Vec<u8>, Error>;

/// Reads a payload from bytes.
pub trait Parser {
    fn parse(&self, bytes: &[u8]) -> ParsingResult;
}

/// Writes a payload as bytes.
pub trait Serializer {
    fn serialize(&self, payload: &TransactionPayload) -> SerializationResult;
}

/// Why a payload could not be read or written.
#[derive(Debug)]
pub enum Error {
    /// The payload is malformed. Carries a description for diagnostics.
    InvalidPayload(String),
    /// The payload's timestamp is no number.
    InvalidTimestamp,
}

/// The mathematical value of an [`Error`].
pub enum PayloadFailure {
    InvalidPayload(Seq<char>),
    InvalidTimestamp,
}

impl View for Error {
    type V = PayloadFailure;

    open spec fn view(&self) -> PayloadFailure {
        match self {
            Error::InvalidPayload(description) => PayloadFailure::InvalidPayload(description@),
            Error::InvalidTimestamp => PayloadFailure::InvalidTimestamp,
        }
    }
}

impl PayloadFailure {
    /// The human-readable text of a failure.
    pub open spec fn message(self) -> Seq<char> {
        match self {
            PayloadFailure::InvalidPayload(description) => description,
            PayloadFailure::InvalidTimestamp => "Payload contains invalid timestamp"@,
        }
    }
}

impl Error {
    /// The human-readable text of this failure.
    pub fn message(&self) -> (text: String)
        ensures
            text@ == self@.message(),
    {
        match self {
            Error::InvalidPayload(description) => description.clone(),
            Error::InvalidTimestamp => "Payload contains invalid timestamp".to_owned(),
        }
    }
}

/// One message of one agent, with what is needed to file it.
#[derive(PartialEq, Debug)]
pub struct TransactionPayload {
    pub agent_id: String,
    pub message_type: String,
    pub message_bytes: Vec<u8>,
    pub timestamp: u64,
}

/// The mathematical value of a [`TransactionPayload`].
pub struct PayloadView {
    pub agent_id: Seq<char>,
    pub message_type: Seq<char>,
    pub message_bytes: Seq<u8>,
    pub timestamp: u64,
}

impl View for TransactionPayload {
    type V = PayloadView;

    open spec fn view(&self) -> PayloadView {
        PayloadView {
            agent_id: self.agent_id@,
            message_type: self.message_type@,
            message_bytes: self.message_bytes@,
            timestamp: self.timestamp,
        }
    }
}

impl TransactionPayload {
    pub fn new(agent_id: &str, message_type: &str, message_bytes: &[u8], timestamp: u64) -> (payload:
        Self)
        ensures
            payload@ == (PayloadView {
                agent_id: agent_id@,
                message_type: message_type@,
                message_bytes: message_bytes@,
                timestamp,
            }),
    {
        TransactionPayload {
            agent_id: agent_id.to_owned(),
            message_type: message_type.to_owned(),
            message_bytes: vstd::slice::slice_to_vec(message_bytes),
            timestamp,
        }
    }
}

impl Default for TransactionPayload {
    /// The payload of no agent: empty texts, no bytes, timestamp zero.
    fn default() -> (payload: Self)
        ensures
            payload@ == (PayloadView {
                agent_id: Seq::empty(),
                message_type: Seq::empty(),
                message_bytes: Seq::empty(),
                timestamp: 0,
            }),
    {
        TransactionPayload {
            agent_id: String::new(),
            message_type: String::new(),
            message_bytes: Vec::new(),
            timestamp: 0,
        }
    }
}

} // verus!
