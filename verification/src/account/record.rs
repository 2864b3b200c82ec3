use vstd::prelude::*;

use super::{Account, AccountView};
use super::identifier::{AccountIdentifier, AccountIdentifierView};
use crate::address::Address;
use crate::client::ClientOptions;
use crate::time::Timestamp;

verus! {

/// What the storage keeps of an account: all of it but its messages.
#[derive(Debug)]
pub struct AccountRecord {
    pub id: [u8; 32],
    pub alias: String,
    pub created_at: Timestamp,
    pub addresses: Vec<Address>,
    pub client_options: ClientOptions,
}

/// What an account record says.
#[verifier::ext_equal]
pub struct AccountRecordView {
    pub id: Seq<u8>,
    pub alias: Seq<char>,
    pub created_at: Timestamp,
    pub addresses: Seq<Address>,
    pub client_options: Seq<char>,
}

impl View for AccountRecord {
    type V = AccountRecordView;

    open spec fn view(&self) -> AccountRecordView {
        AccountRecordView {
            id: self.id@,
            alias: self.alias@,
            created_at: self.created_at,
            addresses: self.addresses@,
            client_options: self.client_options@,
        }
    }
}

/// A record to put into the storage, and the key to put it under. It replaces what the storage
/// holds under that key.
#[derive(Debug)]
pub struct StorageWrite {
    pub key: AccountIdentifier,
    pub record: AccountRecord,
}

/// What a write to the storage says.
pub struct StorageWriteView {
    pub key: AccountIdentifierView,
    pub record: AccountRecordView,
}

impl View for StorageWrite {
    type V = StorageWriteView;

    open spec fn view(&self) -> StorageWriteView {
        StorageWriteView { key: self.key@, record: self.record@ }
    }
}

impl StorageWriteView {
    /// What the storage holds after the write.
    pub open spec fn apply(
        self,
        storage: Map<AccountIdentifierView, AccountRecordView>,
    ) -> Map<AccountIdentifierView, AccountRecordView> {
        storage.insert(self.key, self.record)
    }
}

impl AccountView {
    /// What the storage keeps of the account.
    pub open spec fn record(self) -> AccountRecordView {
        AccountRecordView {
            id: self.id,
            alias: self.alias,
            created_at: self.created_at,
            addresses: self.addresses,
            client_options: self.client_options,
        }
    }

    /// The write that brings the storage up to date with the account.
    pub open spec fn write(self) -> StorageWriteView {
        StorageWriteView {
            key: super::identifier::identifier_of(self.id),
            record: self.record(),
        }
    }
}

impl AccountRecordView {
    /// The account that the record is read back as.
    pub open spec fn account(self) -> AccountView {
        AccountView {
            id: self.id,
            alias: self.alias,
            created_at: self.created_at,
            messages: Seq::empty(),
            addresses: self.addresses,
            client_options: self.client_options,
        }
    }
}

impl Account {
    /// What the storage keeps of the account.
    pub fn record(&self) -> (record: AccountRecord)
        ensures
            record@ == self@.record(),
    {
        let addresses = self.addresses.clone();
        assert(addresses@ =~= self.addresses@);
        AccountRecord {
            id: self.id,
            alias: self.alias.clone(),
            created_at: self.created_at,
            addresses,
            client_options: self.client_options.clone(),
        }
    }

    /// The write that brings the storage up to date with the account.
    pub fn write(&self) -> (write: StorageWrite)
        ensures
            write@ == self@.write(),
    {
        StorageWrite { key: AccountIdentifier::from(self.id), record: self.record() }
    }

    /// The account that a record is read back as. It has no messages.
    pub fn from_record(record: AccountRecord) -> (account: Self)
        ensures
            account@ == record@.account(),
    {
        Account {
            id: record.id,
            alias: record.alias,
            created_at: record.created_at,
            messages: Vec::new(),
            addresses: record.addresses,
            client_options: record.client_options,
        }
    }
}

/// A record, and a write, say their fields.
pub proof fn lemma_record_says(record: AccountRecord, write: StorageWrite)
    ensures
        record@.id == record.id@,
        record@.alias == record.alias@,
        record@.created_at == record.created_at,
        record@.addresses == record.addresses@,
        record@.client_options == record.client_options.node@,
        write@.key == write.key@,
        write@.record == write.record@,
{
}

/// What is written of an account stands under the text of its id, and holds its id, its alias, its
/// time of creation, its addresses and its client options.
pub proof fn lemma_written_fields(account: AccountView)
    ensures
        vstd::utf8::valid_utf8(account.id) ==> account.write().key == AccountIdentifierView::Id(
            vstd::utf8::decode_utf8(account.id),
        ),
        !vstd::utf8::valid_utf8(account.id) ==> account.write().key == AccountIdentifierView::Id(
            super::identifier::utf8_lossy(account.id),
        ),
        account.write().record.id == account.id,
        account.write().record.alias == account.alias,
        account.write().record.created_at == account.created_at,
        account.write().record.addresses == account.addresses,
        account.write().record.client_options == account.client_options,
        account.record() == account.write().record,
{
}

/// The account that a record is read back as has the fields of the record, and no messages.
pub proof fn lemma_read_fields(record: AccountRecordView)
    ensures
        record.account().id == record.id,
        record.account().alias == record.alias,
        record.account().created_at == record.created_at,
        record.account().messages.len() == 0,
        record.account().addresses == record.addresses,
        record.account().client_options == record.client_options,
{
}

/// A write puts its record under its key, and leaves every other key as it is.
pub proof fn lemma_write_puts(
    storage: Map<AccountIdentifierView, AccountRecordView>,
    write: StorageWriteView,
    other: AccountIdentifierView,
)
    ensures
        write.apply(storage).dom().contains(write.key),
        write.apply(storage)[write.key] == write.record,
        other != write.key ==> (write.apply(storage).dom().contains(other)
            == storage.dom().contains(other)),
        other != write.key && storage.dom().contains(other) ==> write.apply(storage)[other]
            == storage[other],
{
}

/// Once an account is written, the storage gives it back under its identifier, without its
/// messages.
pub proof fn lemma_read_after_write(
    storage: Map<AccountIdentifierView, AccountRecordView>,
    account: AccountView,
)
    ensures
        ({
            let key = super::identifier::identifier_of(account.id);
            let written = account.write().apply(storage);
            &&& written.dom().contains(key)
            &&& written[key].account() == (AccountView { messages: Seq::empty(), ..account })
        }),
{
}

/// A write leaves what the storage holds of other accounts: of those with another identifier.
pub proof fn lemma_write_spares_others(
    storage: Map<AccountIdentifierView, AccountRecordView>,
    account: AccountView,
    other: Seq<u8>,
)
    requires
        super::identifier::identifier_of(other) != super::identifier::identifier_of(account.id),
    ensures
        ({
            let key = super::identifier::identifier_of(other);
            let written = account.write().apply(storage);
            &&& written.dom().contains(key) == storage.dom().contains(key)
            &&& storage.dom().contains(key) ==> written[key] == storage[key]
        }),
{
}

/// Where the ids are UTF-8, a write leaves what the storage holds of accounts with another id.
pub proof fn lemma_write_spares_other_ids(
    storage: Map<AccountIdentifierView, AccountRecordView>,
    account: AccountView,
    other: Seq<u8>,
)
    requires
        vstd::utf8::valid_utf8(account.id),
        vstd::utf8::valid_utf8(other),
        other != account.id,
    ensures
        ({
            let key = super::identifier::identifier_of(other);
            let written = account.write().apply(storage);
            &&& written.dom().contains(key) == storage.dom().contains(key)
            &&& storage.dom().contains(key) ==> written[key] == storage[key]
        }),
{
    if super::identifier::identifier_of(other) == super::identifier::identifier_of(account.id) {
        super::identifier::lemma_identifier_tells_ids_apart(other, account.id);
    }
    lemma_write_spares_others(storage, account, other);
}

/// Storing an account that was read from a record stores the same record.
pub proof fn lemma_store_again(record: AccountRecordView)
    ensures
        record.account().record() == record,
{
}

/// The messages of an account do not enter into what is stored of it.
pub proof fn lemma_messages_not_stored(account: AccountView, messages: Seq<crate::message::Message>)
    ensures
        (AccountView { messages, ..account }).write() == account.write(),
{
}

} // verus!
