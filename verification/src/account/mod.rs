use vstd::prelude::*;

use crate::address::{contains, Address, IotaAddress};
use crate::client::ClientOptions;
use crate::message::{Message, MessageType};
use crate::time::Timestamp;

pub mod alias;
pub mod identifier;
pub mod initialise_laws;
pub mod initialiser;
pub mod laws;
pub mod record;
pub mod sync;

pub use identifier::AccountIdentifier;
pub use initialiser::AccountInitialiser;
pub use record::{AccountRecord, StorageWrite};
pub use sync::AccountSynchronizer;

verus! {

/// Account definition.
#[derive(Debug, PartialEq)]
pub struct Account {
    /// The account identifier.
    id: [u8; 32],
    /// The account alias.
    alias: String,
    /// Time of account creation.
    created_at: Timestamp,
    /// Messages associated with the seed, the most recent one last.
    /// The account can be initialised with locally stored messages.
    messages: Vec<Message>,
    /// Address history associated with the seed.
    /// The account can be initialised with locally stored address history.
    addresses: Vec<Address>,
    /// The client options.
    client_options: ClientOptions,
}

/// What an account says.
#[verifier::ext_equal]
pub struct AccountView {
    pub id: Seq<u8>,
    pub alias: Seq<char>,
    pub created_at: Timestamp,
    pub messages: Seq<Message>,
    pub addresses: Seq<Address>,
    pub client_options: Seq<char>,
}

impl View for Account {
    type V = AccountView;

    closed spec fn view(&self) -> AccountView {
        AccountView {
            id: self.id@,
            alias: self.alias@,
            created_at: self.created_at,
            messages: self.messages@,
            addresses: self.addresses@,
            client_options: self.client_options@,
        }
    }
}

/// The value of an `i64` in two's complement, read as a `u64`.
pub open spec fn as_u64(value: int) -> int {
    if value < 0 {
        value + 0x1_0000_0000_0000_0000
    } else {
        value
    }
}

impl AccountView {
    /// The sum of the balances of the addresses of the account.
    pub open spec fn total_balance(self) -> nat {
        crate::address::balance_sum(self.addresses)
    }

    /// What the messages that are not confirmed yet take from the balance.
    pub open spec fn reserved(self) -> int {
        crate::message::reserved(self.messages)
    }

    /// The balance that is left for spending: the total less what the messages take from it. The
    /// difference is one of `u64` values, so that a sum of messages below zero counts as the `u64`
    /// with the same bits.
    pub open spec fn available_balance(self) -> int {
        self.total_balance() - as_u64(self.reserved())
    }

    /// Whether the values of the unconfirmed messages, added up in order, stay in the range of
    /// an `i64`.
    pub open spec fn reserved_fits(self) -> bool {
        forall|n: int|
            0 <= n <= self.messages.len() ==> i64::MIN <= crate::message::reserved(
                #[trigger] self.messages.take(n),
            ) <= i64::MAX
    }

    /// The messages of the given kind, without the `from` most recent ones. Without a kind, no
    /// more than the `count` most recent of those.
    pub open spec fn list_messages(
        self,
        count: nat,
        from: nat,
        message_type: Option<MessageType>,
    ) -> Seq<Message> {
        let list = crate::message::skip_most_recent(
            crate::message::messages_of_type(self.messages, self.addresses, message_type),
            from,
        );
        match message_type {
            Some(_) => list,
            None => crate::message::keep_most_recent(list, count),
        }
    }
}

impl Account {
    /// Whether `is_unspent` may give these answers, one for each address of the account.
    pub open spec fn verdicts_of<F: Fn(&Account, &IotaAddress) -> bool>(
        &self,
        is_unspent: F,
        verdicts: Seq<bool>,
    ) -> bool {
        &&& verdicts.len() == self@.addresses.len()
        &&& forall|i: int|
            0 <= i < verdicts.len() ==> is_unspent.ensures(
                (self, &(#[trigger] self@.addresses[i]).address),
                verdicts[i],
            )
    }

    /// Whether `list` holds, in order, the addresses of the account to which `is_unspent` answers
    /// `unspent`, for answers that it may give.
    pub open spec fn lists_addresses<F: Fn(&Account, &IotaAddress) -> bool>(
        &self,
        is_unspent: F,
        unspent: bool,
        list: Seq<Address>,
    ) -> bool {
        exists|verdicts: Seq<bool>|
            {
                &&& #[trigger] self.verdicts_of(is_unspent, verdicts)
                &&& list == crate::address::selected(self@.addresses, verdicts, unspent)
            }
    }

    /// Returns the most recent address of the account: the one with the highest key index, the
    /// last of them where several share it.
    pub fn latest_address(&self) -> (latest: Option<&Address>)
        ensures
            latest is None <==> self@.addresses.len() == 0,
            latest matches Some(address) ==> crate::address::is_latest(self@.addresses, *address),
            latest matches Some(address) ==> exists|i: int|
                {
                    &&& 0 <= i < self@.addresses.len()
                    &&& *address == #[trigger] self@.addresses[i]
                    &&& forall|j: int|
                        0 <= j < i ==> self@.addresses[j].key_index <= address.key_index
                    &&& forall|j: int|
                        i < j < self@.addresses.len() ==> self@.addresses[j].key_index
                            < address.key_index
                },
    {
        if self.addresses.len() == 0 {
            return None;
        }
        let mut best: usize = 0;
        let mut i: usize = 1;
        while i < self.addresses.len()
            invariant
                best < i <= self.addresses.len(),
                forall|j: int|
                    0 <= j < best ==> self.addresses@[j].key_index
                        <= self.addresses@[best as int].key_index,
                forall|j: int|
                    best < j < i ==> self.addresses@[j].key_index
                        < self.addresses@[best as int].key_index,
            decreases self.addresses.len() - i,
        {
            if *self.addresses[i].key_index() >= *self.addresses[best].key_index() {
                best = i;
            }
            i = i + 1;
        }
        assert(self.addresses@[best as int] == self@.addresses[best as int]);
        Some(&self.addresses[best])
    }

    /// Returns the builder to setup the process to synchronize this account with the network.
    pub fn sync(&self) -> (synchronizer: AccountSynchronizer<'_>)
        ensures
            synchronizer.account == self,
    {
        AccountSynchronizer::new(self)
    }

    /// Gets the account's total balance.
    /// It's what was last read of the network. To read the latest account balance, you should
    /// `sync` first.
    pub fn total_balance(&self) -> (total: u64)
        requires
            self@.total_balance() <= u64::MAX,
        ensures
            total == self@.total_balance(),
    {
        let mut total: u64 = 0;
        let mut i: usize = 0;
        assert(self.addresses@.take(0) =~= Seq::empty());
        while i < self.addresses.len()
            invariant
                0 <= i <= self.addresses.len(),
                total == crate::address::balance_sum(self.addresses@.take(i as int)),
                crate::address::balance_sum(self.addresses@) <= u64::MAX,
            decreases self.addresses.len() - i,
        {
            proof {
                crate::address::lemma_balance_sum_take(self.addresses@, i + 1);
                assert(self.addresses@.take(i + 1).drop_last() =~= self.addresses@.take(i as int));
            }
            total = total + *self.addresses[i].balance();
            i = i + 1;
        }
        assert(self.addresses@.take(i as int) =~= self.addresses@);
        total
    }

    /// Gets the account's available balance.
    /// It's what was last read of the network. To read the latest account balance, you should
    /// `sync` first.
    ///
    /// The available balance is the balance users are allowed to spend.
    /// For example, if a user with 50i total account balance has made a message spending 20i that
    /// is not confirmed yet, the available balance is 50i - 20i = 30i.
    pub fn available_balance(&self) -> (available: u64)
        requires
            self@.total_balance() <= u64::MAX,
            self@.reserved_fits(),
            as_u64(self@.reserved()) <= self@.total_balance(),
        ensures
            available == self@.available_balance(),
    {
        let total = self.total_balance();
        let mut spent: i64 = 0;
        let mut i: usize = 0;
        assert(self.messages@.take(0) =~= Seq::empty());
        while i < self.messages.len()
            invariant
                0 <= i <= self.messages.len(),
                spent == crate::message::reserved(self.messages@.take(i as int)),
                self@.reserved_fits(),
            decreases self.messages.len() - i,
        {
            let message = &self.messages[i];
            let value: i64 = if *message.confirmed() {
                0
            } else {
                message.value().without_denomination()
            };
            proof {
                assert(self@.messages == self.messages@);
                assert(self@.messages.take(i + 1).drop_last() =~= self.messages@.take(i as int));
                assert(crate::message::reserved(self@.messages.take(i + 1)) == spent + value);
            }
            spent = spent + value;
            i = i + 1;
        }
        assert(self.messages@.take(i as int) =~= self.messages@);
        let spent_unsigned: u64 = spent as u64;
        assert(spent_unsigned == as_u64(spent as int)) by {
            assert(spent >= 0 ==> spent as u64 == spent) by (bit_vector);
            assert(spent < 0 ==> spent as u64 == spent + 0x1_0000_0000_0000_0000) by (bit_vector);
        }
        total - spent_unsigned
    }

    /// Gets a list of messages on this account, in the order in which they were added.
    /// To ensure that the account knows the latest messages, `sync` should be called first.
    ///
    /// * `count` - Number of (most recent) messages to fetch. With a message type, all messages of
    ///   that type are fetched.
    /// * `from` - Starting point of the list: this many of the most recent messages are skipped.
    /// * `message_type` - Optional message type filter.
    pub fn list_messages(&self, count: u64, from: u64, message_type: Option<MessageType>) -> (list:
        Vec<&Message>)
        ensures
            list@.map_values(|message: &Message| *message) == self@.list_messages(
                count as nat,
                from as nat,
                message_type,
            ),
    {
        let mut list: Vec<&Message> = Vec::new();
        let mut i: usize = 0;
        let ghost keeps = |message: Message| message.is_of_type(self@.addresses, message_type);
        let ghost deref = |message: &Message| *message;
        assert(self.messages@.take(0).filter(keeps) =~= Seq::empty()) by {
            reveal(Seq::filter);
        }
        while i < self.messages.len()
            invariant
                0 <= i <= self.messages.len(),
                keeps == |message: Message| message.is_of_type(self@.addresses, message_type),
                deref == |message: &Message| *message,
                list@.map_values(deref) =~= self.messages@.take(i as int).filter(keeps),
            decreases self.messages.len() - i,
        {
            let message = &self.messages[i];
            let keep = match message_type {
                Some(MessageType::Received) => contains(&self.addresses, message.address()),
                Some(MessageType::Sent) => !contains(&self.addresses, message.address()),
                Some(MessageType::Failed) => !*message.broadcasted(),
                Some(MessageType::Unconfirmed) => !*message.confirmed(),
                Some(MessageType::Value) => message.value().without_denomination() > 0,
                None => true,
            };
            proof {
                assert(keep == keeps(*message));
                let next = self.messages@.take(i + 1);
                assert(next.drop_last() =~= self.messages@.take(i as int));
                assert(next.last() == *message);
                assert(next.filter(keeps) == if keep {
                    self.messages@.take(i as int).filter(keeps).push(*message)
                } else {
                    self.messages@.take(i as int).filter(keeps)
                }) by {
                    reveal(Seq::filter);
                }
            }
            if keep {
                list.push(message);
            }
            i = i + 1;
        }
        assert(self.messages@.take(i as int) =~= self.messages@);
        let ghost full = list@;
        let length = list.len();
        if from <= length as u64 {
            list.truncate(length - from as usize);
            assert(list@.map_values(deref) =~= full.map_values(deref).take(length - from));
        } else {
            list.clear();
            assert(list@.map_values(deref) =~= Seq::empty());
        }
        let ghost skipped = list@;
        let length = list.len();
        if message_type.is_none() && count < length as u64 {
            list = list.split_off(length - count as usize);
            assert(list@.map_values(deref) =~= skipped.map_values(deref).skip(length - count));
        }
        list
    }

    /// Gets the addresses linked to this account, in order.
    ///
    /// * `unspent` - Whether it should get only unspent addresses or not.
    /// * `is_unspent` - Tells of an address of the account whether it is unspent.
    pub fn list_addresses<F: Fn(&Account, &IotaAddress) -> bool>(
        &self,
        unspent: bool,
        is_unspent: F,
    ) -> (list: Vec<&Address>)
        requires
            forall|i: int|
                0 <= i < self@.addresses.len() ==> is_unspent.requires(
                    (self, &(#[trigger] self@.addresses[i]).address),
                ),
        ensures
            self.lists_addresses(
                is_unspent,
                unspent,
                list@.map_values(|address: &Address| *address),
            ),
    {
        let mut list: Vec<&Address> = Vec::new();
        let ghost mut verdicts: Seq<bool> = Seq::empty();
        let ghost deref = |address: &Address| *address;
        let mut i: usize = 0;
        assert(list@.map_values(deref) =~= crate::address::selected(
            self.addresses@.take(0),
            verdicts,
            unspent,
        ));
        while i < self.addresses.len()
            invariant
                0 <= i <= self.addresses.len(),
                self@.addresses == self.addresses@,
                forall|j: int|
                    0 <= j < self@.addresses.len() ==> is_unspent.requires(
                        (self, &(#[trigger] self@.addresses[j]).address),
                    ),
                verdicts.len() == i,
                forall|j: int|
                    0 <= j < i ==> is_unspent.ensures(
                        (self, &(#[trigger] self@.addresses[j]).address),
                        verdicts[j],
                    ),
                deref == |address: &Address| *address,
                list@.map_values(deref) == crate::address::selected(
                    self.addresses@.take(i as int),
                    verdicts,
                    unspent,
                ),
            decreases self.addresses.len() - i,
        {
            let address = &self.addresses[i];
            assert(address == self@.addresses[i as int]);
            let verdict = is_unspent(self, address.address());
            proof {
                let next = self.addresses@.take(i + 1);
                assert(next.drop_last() =~= self.addresses@.take(i as int));
                crate::address::lemma_selected_prefix(
                    next.drop_last(),
                    verdicts,
                    verdicts.push(verdict),
                    unspent,
                );
                verdicts = verdicts.push(verdict);
            }
            let ghost before = list@;
            if verdict == unspent {
                list.push(address);
                assert(list@.map_values(deref) =~= before.map_values(deref).push(*address));
            }
            i = i + 1;
        }
        assert(self.addresses@.take(i as int) =~= self.addresses@);
        assert(self.verdicts_of(is_unspent, verdicts));
        list
    }

    /// Gets a message with the given hash associated with this account: the first one, where
    /// several have it.
    pub fn get_message(&self, hash: &crate::message::Hash) -> (found: Option<&Message>)
        ensures
            match found {
                Some(message) => crate::message::is_first_with_hash(
                    self@.messages,
                    hash@,
                    *message,
                ),
                None => crate::message::none_with_hash(self@.messages, hash@),
            },
            found is Some <==> exists|i: int|
                0 <= i < self@.messages.len() && (#[trigger] self@.messages[i]).hash.0@ == hash.0@,
            found matches Some(message) ==> exists|i: int|
                {
                    &&& 0 <= i < self@.messages.len()
                    &&& *message == #[trigger] self@.messages[i]
                    &&& message.hash.0@ == hash.0@
                    &&& forall|j: int| 0 <= j < i ==> self@.messages[j].hash.0@ != hash.0@
                },
    {
        let mut i: usize = 0;
        while i < self.messages.len()
            invariant
                0 <= i <= self.messages.len(),
                forall|j: int| 0 <= j < i ==> self.messages@[j].hash@ != hash@,
            decreases self.messages.len() - i,
        {
            if *self.messages[i].hash() == *hash {
                assert(self.messages@[i as int] == self@.messages[i as int]);
                return Some(&self.messages[i]);
            }
            i = i + 1;
        }
        None
    }

    /// Updates the account alias. The write returned brings the storage up to date.
    pub fn set_alias(&mut self, alias: &str) -> (write: StorageWrite)
        ensures
            final(self)@ == (AccountView { alias: alias@, ..old(self)@ }),
            write@ == final(self)@.write(),
    {
        self.alias = alias.to_owned();
        self.write()
    }

    /// Links a new unused address to this account, once it was asked for.
    ///
    /// * `new_address` - What came of asking for a new unused address.
    ///
    /// Gives the address, with the write that brings the storage up to date. Where no address
    /// came, the account stays as it is and the error is handed on.
    pub fn generate_address<E>(&mut self, new_address: Result<Address, E>) -> (result: Result<
        (Address, StorageWrite),
        E,
    >)
        ensures
            match new_address {
                Ok(address) => {
                    &&& final(self)@ == (AccountView {
                        addresses: old(self)@.addresses.push(address),
                        ..old(self)@
                    })
                    &&& result matches Ok((linked, write))
                    &&& linked == address
                    &&& write@ == final(self)@.write()
                },
                Err(error) => *final(self) == *old(self) && result == Err::<
                    (Address, StorageWrite),
                    E,
                >(error),
            },
    {
        match new_address {
            Ok(address) => {
                self.addresses.push(address);
                Ok((address, self.write()))
            },
            Err(error) => Err(error),
        }
    }

    /// Adds messages, the most recent one last.
    pub fn append_messages(&mut self, messages: Vec<Message>)
        ensures
            final(self)@ == (AccountView {
                messages: old(self)@.messages + messages@,
                ..old(self)@
            }),
    {
        let mut messages = messages;
        self.messages.append(&mut messages);
    }

    /// Replaces the messages.
    pub fn set_messages(&mut self, messages: Vec<Message>)
        ensures
            final(self)@ == (AccountView { messages: messages@, ..old(self)@ }),
    {
        self.messages = messages;
    }

    /// The account identifier.
    pub fn id(&self) -> (id: &[u8; 32])
        ensures
            id@ == self@.id,
    {
        &self.id
    }

    /// The account alias.
    pub fn alias(&self) -> (alias: &String)
        ensures
            alias@ == self@.alias,
    {
        &self.alias
    }

    /// Time of account creation.
    pub fn created_at(&self) -> (created_at: &Timestamp)
        ensures
            *created_at == self@.created_at,
    {
        &self.created_at
    }

    /// Messages associated with the seed, the most recent one last.
    pub fn messages(&self) -> (messages: &Vec<Message>)
        ensures
            messages@ == self@.messages,
    {
        &self.messages
    }

    /// Address history associated with the seed.
    pub fn addresses(&self) -> (addresses: &Vec<Address>)
        ensures
            addresses@ == self@.addresses,
    {
        &self.addresses
    }

    /// The client options.
    pub fn client_options(&self) -> (client_options: &ClientOptions)
        ensures
            client_options@ == self@.client_options,
    {
        &self.client_options
    }
}

impl Clone for Account {
    fn clone(&self) -> (copy: Self)
        ensures
            copy@ == self@,
    {
        let messages = self.messages.clone();
        assert(messages@ =~= self.messages@);
        let addresses = self.addresses.clone();
        assert(addresses@ =~= self.addresses@);
        Account {
            id: self.id,
            alias: self.alias.clone(),
            created_at: self.created_at,
            messages,
            addresses,
            client_options: self.client_options.clone(),
        }
    }
}

/// Data returned from the account initialisation.
pub struct InitialisedAccount<'a> {
    /// The account identifier.
    pub id: &'a str,
    /// The account alias.
    pub alias: &'a str,
    /// Seed address history.
    pub addresses: Vec<Address>,
    /// Seed message history.
    pub messages: Vec<Message>,
    /// Account creation time.
    pub created_at: Timestamp,
    /// Time when the account was last synced with the network.
    pub last_synced_at: Timestamp,
}

impl<'a> InitialisedAccount<'a> {
    /// The account identifier.
    pub fn id(&self) -> (id: &&'a str)
        ensures
            *id == self.id,
    {
        &self.id
    }

    /// The account alias.
    pub fn alias(&self) -> (alias: &&'a str)
        ensures
            *alias == self.alias,
    {
        &self.alias
    }

    /// Seed address history.
    pub fn addresses(&self) -> (addresses: &Vec<Address>)
        ensures
            *addresses == self.addresses,
    {
        &self.addresses
    }

    /// Seed message history.
    pub fn messages(&self) -> (messages: &Vec<Message>)
        ensures
            *messages == self.messages,
    {
        &self.messages
    }

    /// Account creation time.
    pub fn created_at(&self) -> (created_at: &Timestamp)
        ensures
            *created_at == self.created_at,
    {
        &self.created_at
    }

    /// Time when the account was last synced with the network.
    pub fn last_synced_at(&self) -> (last_synced_at: &Timestamp)
        ensures
            *last_synced_at == self.last_synced_at,
    {
        &self.last_synced_at
    }
}

} // verus!
