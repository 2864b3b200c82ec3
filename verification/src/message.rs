use vstd::prelude::*;

use crate::address::{same_bytes, holds, Address};
use crate::time::Timestamp;

verus! {

/// The hash of a message.
#[derive(Debug, Clone, Copy)]
pub struct Hash(pub [u8; 32]);

impl View for Hash {
    type V = Seq<u8>;

    open spec fn view(&self) -> Seq<u8> {
        self.0@
    }
}

impl PartialEq for Hash {
    fn eq(&self, other: &Self) -> (same: bool)
        ensures
            same == (self.0@ == other.0@),
    {
        same_bytes(&self.0, &other.0)
    }
}

impl vstd::std_specs::cmp::PartialEqSpecImpl for Hash {
    open spec fn obeys_eq_spec() -> bool {
        true
    }

    open spec fn eq_spec(&self, other: &Self) -> bool {
        self@ == other@
    }
}

/// A hash says its bytes.
pub proof fn lemma_hash_says(hash: Hash)
    ensures
        hash@ == hash.0@,
{
}

/// An amount of tokens, counted in the smallest unit.
#[derive(Debug, Clone, Copy, PartialEq, Eq, Structural)]
pub struct Value {
    pub amount: i64,
}

impl Value {
    /// The value of the given amount.
    pub fn new(amount: i64) -> (value: Self)
        ensures
            value.amount == amount,
    {
        Value { amount }
    }

    /// The amount, in the smallest unit.
    pub fn without_denomination(&self) -> (amount: i64)
        ensures
            amount == self.amount,
    {
        self.amount
    }
}

/// The kinds of message that a caller can ask for.
#[derive(Debug, Clone, Copy, PartialEq, Eq, Structural)]
pub enum MessageType {
    /// Sent to an address of the account.
    Received,
    /// Sent to an address that is not of the account.
    Sent,
    /// Not broadcasted.
    Failed,
    /// Not confirmed.
    Unconfirmed,
    /// Moves tokens.
    Value,
}

/// A message of an account.
///
/// The payload counts by what the wallet reads of it: the address that it is sent to and the
/// value that it moves.
#[derive(Debug, Clone, Copy, PartialEq)]
pub struct Message {
    /// The hash of the message.
    pub hash: Hash,
    /// The version of the message format.
    pub version: u64,
    /// The hash of the first message that this one approves.
    pub trunk: Hash,
    /// The hash of the second message that this one approves.
    pub branch: Hash,
    /// The length of the payload.
    pub payload_length: u64,
    /// The address that the payload is sent to.
    pub address: Address,
    /// The value that the payload moves.
    pub value: Value,
    /// When the message was made.
    pub timestamp: Timestamp,
    /// The nonce of the message.
    pub nonce: u64,
    /// Whether the message is confirmed.
    pub confirmed: bool,
    /// Whether the message was broadcasted.
    pub broadcasted: bool,
}

impl Message {
    /// The hash of the message.
    pub fn hash(&self) -> (hash: &Hash)
        ensures
            *hash == self.hash,
    {
        &self.hash
    }

    /// The address that the message is sent to.
    pub fn address(&self) -> (address: &Address)
        ensures
            *address == self.address,
    {
        &self.address
    }

    /// The value that the message moves.
    pub fn value(&self) -> (value: &Value)
        ensures
            *value == self.value,
    {
        &self.value
    }

    /// Whether the message is confirmed.
    pub fn confirmed(&self) -> (confirmed: &bool)
        ensures
            *confirmed == self.confirmed,
    {
        &self.confirmed
    }

    /// Whether the message was broadcasted.
    pub fn broadcasted(&self) -> (broadcasted: &bool)
        ensures
            *broadcasted == self.broadcasted,
    {
        &self.broadcasted
    }

    /// Whether the message is of the given kind, for an account with the given addresses. With
    /// no kind given, every message is.
    pub open spec fn is_of_type(self, addresses: Seq<Address>, message_type: Option<MessageType>) -> bool {
        match message_type {
            Some(MessageType::Received) => holds(addresses, self.address),
            Some(MessageType::Sent) => !holds(addresses, self.address),
            Some(MessageType::Failed) => !self.broadcasted,
            Some(MessageType::Unconfirmed) => !self.confirmed,
            Some(MessageType::Value) => self.value.amount > 0,
            None => true,
        }
    }

    /// What the message takes from the balance that can be spent: its value, as long as it is
    /// not confirmed.
    pub open spec fn reserves(self) -> int {
        if self.confirmed {
            0
        } else {
            self.value.amount as int
        }
    }
}

/// The sum of what the messages take from the balance that can be spent.
pub open spec fn reserved(messages: Seq<Message>) -> int
    decreases messages.len(),
{
    if messages.len() == 0 {
        0
    } else {
        reserved(messages.drop_last()) + messages.last().reserves()
    }
}

/// The messages of the given kind, in order.
pub open spec fn messages_of_type(
    messages: Seq<Message>,
    addresses: Seq<Address>,
    message_type: Option<MessageType>,
) -> Seq<Message> {
    messages.filter(|message: Message| message.is_of_type(addresses, message_type))
}

/// Whether `found` is the first of the messages with the given hash.
pub open spec fn is_first_with_hash(messages: Seq<Message>, hash: Seq<u8>, found: Message) -> bool {
    exists|i: int|
        {
            &&& 0 <= i < messages.len()
            &&& found == #[trigger] messages[i]
            &&& found.hash@ == hash
            &&& forall|j: int| 0 <= j < i ==> messages[j].hash@ != hash
        }
}

/// Whether no message has the given hash.
pub open spec fn none_with_hash(messages: Seq<Message>, hash: Seq<u8>) -> bool {
    forall|i: int| 0 <= i < messages.len() ==> (#[trigger] messages[i]).hash@ != hash
}

/// All but the `from` last messages; none where there are no more than that.
pub open spec fn skip_most_recent(messages: Seq<Message>, from: nat) -> Seq<Message> {
    if from <= messages.len() {
        messages.take(messages.len() - from)
    } else {
        Seq::empty()
    }
}

/// The `count` last messages; all of them where there are no more than that.
pub open spec fn keep_most_recent(messages: Seq<Message>, count: nat) -> Seq<Message> {
    if count <= messages.len() {
        messages.skip(messages.len() - count)
    } else {
        messages
    }
}

} // verus!
