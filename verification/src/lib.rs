//! Validation of the messages that agents of a coordination protocol exchange,
//! the payload envelope those messages travel in, and the addresses under
//! which payloads are filed.

use vstd::prelude::*;
use vstd::utf8::{encode_utf8, is_ascii_chars};
use crate::helper::{calculate_checksum, checksum};
use crate::payloads::TransactionPayload;
use crate::text::{decimal, to_decimal};

pub mod helper;
pub mod messages;
pub mod payloads;
pub mod text;

verus! {

/// A family of transactions: its name and the versions of it that are in
/// use, oldest first.
pub struct TransactionFamily {
    name: String,
    versions: Vec<String>,
}

/// The namespace of a family name: the first 6 digits of its checksum.
pub open spec fn namespace_of(name: Seq<char>) -> Seq<char> {
    checksum(encode_utf8(name)).subrange(0, 6)
}

/// The text that tells one payload from another: who sent it, what kind of
/// message it is and when it was sent, written one after the other.
pub open spec fn identity_of(agent_id: Seq<char>, message_type: Seq<char>, timestamp: u64) -> Seq<
    char,
> {
    agent_id + message_type + decimal(timestamp as nat)
}

/// The address under which a family files a payload: the family's namespace,
/// then the first 64 digits of the checksum of the payload's identity.
pub open spec fn state_address_of(
    name: Seq<char>,
    agent_id: Seq<char>,
    message_type: Seq<char>,
    timestamp: u64,
) -> Seq<char> {
    namespace_of(name) + checksum(
        encode_utf8(identity_of(agent_id, message_type, timestamp)),
    ).subrange(0, 64)
}

/// The texts of a sequence of strings, one for one.
pub open spec fn texts_of(strings: Seq<String>) -> Seq<Seq<char>> {
    strings.map_values(|string: String| string@)
}

/// The mathematical value of a [`TransactionFamily`].
pub struct FamilyView {
    pub name: Seq<char>,
    pub versions: Seq<Seq<char>>,
}

impl View for TransactionFamily {
    type V = FamilyView;

    closed spec fn view(&self) -> FamilyView {
        FamilyView {
            name: self.name@,
            versions: texts_of(self.versions@),
        }
    }
}

impl TransactionFamily {
    pub fn new(name: &str, versions: &[String]) -> (family: Self)
        ensures
            family@.name == name@,
            family@.versions == texts_of(versions@),
    {
        let mut copies: Vec<String> = Vec::new();
        let mut i: usize = 0;
        while i < versions.len()
            invariant
                i <= versions.len(),
                copies@ == versions@.subrange(0, i as int),
            decreases versions.len() - i,
        {
            copies.push(versions[i].clone());
            assert(copies@ =~= versions@.subrange(0, i + 1));
            i = i + 1;
        }
        assert(copies@ =~= versions@);
        TransactionFamily { name: name.to_owned(), versions: copies }
    }

    /// The family's name.
    pub fn name(&self) -> (name: &str)
        ensures
            name@ == self@.name,
    {
        self.name.as_str()
    }

    /// The number of the family's versions.
    pub fn version_count(&self) -> (count: usize)
        ensures
            count == self@.versions.len(),
    {
        self.versions.len()
    }

    /// The namespace under which the family's payloads are filed: 6
    /// hexadecimal digits.
    pub fn calculate_namespace(&self) -> (namespace: String)
        ensures
            namespace@ == namespace_of(self@.name),
            namespace@.len() == 6,
            is_ascii_chars(namespace@),
    {
        let namespace_part = calculate_checksum(self.name.as_str().as_bytes());
        namespace_part.as_str().substring_ascii(0, 6).to_owned()
    }

    /// The address under which a payload is filed: 70 hexadecimal digits, of
    /// which the first 6 are the family's namespace.
    pub fn calculate_state_address_for(&self, message: &TransactionPayload) -> (address: String)
        ensures
            address@ == state_address_of(
                self@.name,
                message.agent_id@,
                message.message_type@,
                message.timestamp,
            ),
            address@.len() == 70,
            address@.subrange(0, 6) == namespace_of(self@.name),
    {
        let mut identity = message.agent_id.clone();
        identity.append(message.message_type.as_str());
        identity.append(to_decimal(message.timestamp).as_str());
        let payload_part = calculate_checksum(identity.as_str().as_bytes());
        let namespace_part = self.calculate_namespace();
        let mut address = namespace_part.as_str().substring_ascii(0, 6).to_owned();
        address.append(payload_part.as_str().substring_ascii(0, 64));
        assert(namespace_part@.subrange(0, 6) =~= namespace_part@);
        assert(address@.subrange(0, 6) =~= namespace_part@);
        address
    }

    /// The version that was registered last. A family without versions has
    /// none.
    pub fn latest_version(&self) -> (version: String)
        requires
            self@.versions.len() > 0,
        ensures
            version@ == self@.versions.last(),
    {
        self.versions[self.versions.len() - 1].clone()
    }
}

impl Default for TransactionFamily {
    /// The family without a name and without versions.
    fn default() -> (family: Self)
        ensures
            family@.name == Seq::<char>::empty(),
            family@.versions == Seq::<Seq<char>>::empty(),
    {
        let family = TransactionFamily { name: String::new(), versions: Vec::new() };
        assert(family@.versions =~= Seq::<Seq<char>>::empty());
        family
    }
}

} // verus!
