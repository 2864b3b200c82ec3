use std::collections::HashMap;

use iota_wallet::account::initialiser::{
    AccountInitialiser, InitialiseAction, InitialiseEvent, Progress,
};
use iota_wallet::account::{Account, AccountIdentifier, AccountRecord, StorageWrite};
use iota_wallet::address::{Address, IotaAddress};
use iota_wallet::client::ClientOptions;
use iota_wallet::message::{Message, MessageType, Value};
use iota_wallet::time::Timestamp;

/// A wallet whose storage is a map and whose stronghold makes up random ids.
struct AccountManager {
    storage: HashMap<String, AccountRecord>,
}

fn key_of(identifier: AccountIdentifier) -> String {
    match identifier {
        AccountIdentifier::Id(id) => id,
        AccountIdentifier::Index(index) => panic!("no account is stored under the index {}", index),
    }
}

impl AccountManager {
    fn new() -> Self {
        AccountManager { storage: HashMap::new() }
    }

    fn create_account(&self, client_options: ClientOptions) -> AccountInitialiser {
        AccountInitialiser::new(client_options)
    }

    fn store(&mut self, write: StorageWrite) {
        self.storage.insert(key_of(write.key), write.record);
    }

    fn initialise(&mut self, initialiser: AccountInitialiser) -> Result<Account, String> {
        let mut initialisation = initialiser.initialise();
        loop {
            let event: InitialiseEvent<String> = match initialisation.action() {
                InitialiseAction::OpenStorage => InitialiseEvent::StorageOpened,
                InitialiseAction::CountAccounts => {
                    InitialiseEvent::AccountsCounted(self.storage.len())
                }
                InitialiseAction::ImportAccount { .. } | InitialiseAction::CreateAccount { .. } => {
                    InitialiseEvent::AccountReady(rand::random::<[u8; 32]>())
                }
                InitialiseAction::StoreAccount { write } => {
                    self.store(write);
                    InitialiseEvent::AccountStored
                }
            };
            match initialisation.advance(event) {
                Progress::Pending(next) => initialisation = next,
                Progress::Finished(result) => return result,
            }
        }
    }

    fn get_account(&mut self, identifier: AccountIdentifier) -> Option<Account> {
        self.storage.remove(&key_of(identifier)).map(Account::from_record)
    }
}

fn now() -> Timestamp {
    Timestamp::new(1_600_000_000, 0).unwrap()
}

fn _generate_iota_address() -> IotaAddress {
    IotaAddress::from_ed25519_bytes(&rand::random::<[u8; 32]>())
}

fn _generate_account(messages: Vec<Message>) -> (Account, Address, u64) {
    let mut manager = AccountManager::new();
    let client_options = ClientOptions::new("https://nodes.devnet.iota.org:443");

    let address = _generate_iota_address();
    let balance: u64 = 30;
    let first_address = Address::new(address, balance / 2, 0);
    let second_address = Address::new(address, balance / 2, 1);

    let addresses = vec![second_address, first_address];
    let initialiser = manager
        .create_account(client_options)
        .alias("alias")
        .addresses(addresses)
        .messages(messages);
    let account = manager.initialise(initialiser).expect("failed to add account");
    (account, second_address, balance)
}

fn _generate_message(value: i64, address: Address, confirmed: bool, broadcasted: bool) -> Message {
    Message {
        hash: iota_wallet::message::Hash(rand::random::<[u8; 32]>()),
        version: 1,
        trunk: iota_wallet::message::Hash([0; 32]),
        branch: iota_wallet::message::Hash([0; 32]),
        payload_length: 0,
        address,
        value: Value::new(value),
        timestamp: now(),
        nonce: 0,
        confirmed,
        broadcasted,
    }
}

#[test]
// asserts that the `set_alias` function updates the account alias in storage
fn set_alias() {
    let mut manager = AccountManager::new();
    let updated_alias = "updated alias";
    let client_options = ClientOptions::new("https://nodes.devnet.iota.org:443");

    let initialiser = manager.create_account(client_options).alias("alias");
    let mut account = manager.initialise(initialiser).expect("failed to add account");

    let write = account.set_alias(updated_alias);
    manager.store(write);
    let account_in_storage = manager
        .get_account(account.id().into())
        .expect("failed to get account from storage");
    assert_eq!(account_in_storage.alias().to_string(), updated_alias.to_string());
}

#[test]
fn latest_address() {
    let (account, latest_address, _) = _generate_account(vec![]);
    assert_eq!(account.latest_address(), Some(&latest_address));
    assert_eq!(*account.latest_address().unwrap().key_index(), 1);
}

#[test]
fn total_balance() {
    let (account, _, balance) = _generate_account(vec![]);
    assert_eq!(account.total_balance(), balance);
}

#[test]
fn available_balance() {
    let (account, _, balance) = _generate_account(vec![]);
    assert_eq!(account.available_balance(), balance);

    let unconfirmed_message =
        _generate_message(15, account.addresses().first().unwrap().clone(), false, false);
    let confirmed_message =
        _generate_message(10, account.addresses().first().unwrap().clone(), true, true);
    let (account, _, balance) =
        _generate_account(vec![unconfirmed_message.clone(), confirmed_message]);
    assert_eq!(
        account.available_balance(),
        balance - unconfirmed_message.value().without_denomination() as u64
    );
}

#[test]
fn list_all_messages() {
    let (mut account, _, _) = _generate_account(vec![]);
    let received_message =
        _generate_message(0, account.latest_address().unwrap().clone(), true, true);
    let failed_message =
        _generate_message(0, account.latest_address().unwrap().clone(), true, false);
    let unconfirmed_message =
        _generate_message(0, account.latest_address().unwrap().clone(), false, true);
    let value_message =
        _generate_message(4, account.latest_address().unwrap().clone(), true, true);
    account.append_messages(vec![
        received_message,
        failed_message,
        unconfirmed_message,
        value_message,
    ]);

    let txs = account.list_messages(4, 0, None);
    assert_eq!(txs.len(), 4);
}

#[test]
fn list_messages_by_type() {
    let (mut account, _, _) = _generate_account(vec![]);

    let external_address = Address::new(_generate_iota_address(), 0, 0);

    let received_message =
        _generate_message(0, account.latest_address().unwrap().clone(), true, true);
    let sent_message = _generate_message(0, external_address.clone(), true, true);
    let failed_message =
        _generate_message(0, account.latest_address().unwrap().clone(), true, false);
    let unconfirmed_message =
        _generate_message(0, account.latest_address().unwrap().clone(), false, true);
    let value_message =
        _generate_message(5, account.latest_address().unwrap().clone(), true, true);
    account.append_messages(vec![
        received_message.clone(),
        sent_message.clone(),
        failed_message.clone(),
        unconfirmed_message.clone(),
        value_message.clone(),
    ]);

    let cases = vec![
        (MessageType::Failed, &failed_message),
        (MessageType::Received, &received_message),
        (MessageType::Sent, &sent_message),
        (MessageType::Unconfirmed, &unconfirmed_message),
        (MessageType::Value, &value_message),
    ];
    for (tx_type, expected) in cases {
        let failed_messages = account.list_messages(1, 0, Some(tx_type.clone()));
        assert_eq!(
            failed_messages.len(),
            if tx_type == MessageType::Received { 4 } else { 1 }
        );
        assert_eq!(failed_messages.first().unwrap(), &expected);
    }
}

#[test]
fn get_message_by_hash() {
    let (mut account, _, _) = _generate_account(vec![]);

    let message = _generate_message(0, account.latest_address().unwrap().clone(), true, true);
    account.append_messages(vec![
        _generate_message(10, account.latest_address().unwrap().clone(), true, true),
        message.clone(),
    ]);
    assert_eq!(account.get_message(message.hash()).unwrap(), &message);
}
