use std::time::{SystemTime, UNIX_EPOCH};

use iota_wallet::account::alias::generate_alias;
use iota_wallet::account::initialiser::{
    AccountInitialiser, Initialisation, InitialiseAction, InitialiseEvent, Progress,
};
use iota_wallet::account::{Account, AccountIdentifier, InitialisedAccount, StorageWrite};
use iota_wallet::address::{Address, IotaAddress};
use iota_wallet::client::ClientOptions;
use iota_wallet::message::{Message, MessageType, Value};
use iota_wallet::time::{Timestamp, MAX_SECONDS, MIN_SECONDS};

const ID: [u8; 32] = *b"0123456789abcdef0123456789abcdef";

fn at(seconds: i64, nanos: u32) -> Timestamp {
    Timestamp::new(seconds, nanos).unwrap()
}

fn address(byte: u8, balance: u64, key_index: u64) -> Address {
    Address::new(IotaAddress::from_ed25519_bytes(&[byte; 32]), balance, key_index)
}

fn message(hash: u8, to: Address, value: i64, confirmed: bool, broadcasted: bool) -> Message {
    Message {
        hash: iota_wallet::message::Hash([hash; 32]),
        version: 1,
        trunk: iota_wallet::message::Hash([0; 32]),
        branch: iota_wallet::message::Hash([0; 32]),
        payload_length: 0,
        address: to,
        value: Value::new(value),
        timestamp: at(100, 0),
        nonce: 0,
        confirmed,
        broadcasted,
    }
}

fn initialiser() -> AccountInitialiser {
    AccountInitialiser::new(ClientOptions::new("https://node"))
        .created_at(at(1_500, 7))
}

fn pending(progress: Progress<String>) -> Initialisation {
    match progress {
        Progress::Pending(next) => next,
        Progress::Finished(_) => panic!("the initialisation has come to its end"),
    }
}

fn create(initialiser: AccountInitialiser) -> Account {
    let opening = initialiser.initialise();
    assert!(matches!(opening.action(), InitialiseAction::OpenStorage));
    let creating = pending(opening.advance(InitialiseEvent::StorageOpened));
    match creating.action() {
        InitialiseAction::CreateAccount { password } => assert_eq!(password, "password"),
        _ => panic!("an account is created"),
    }
    let storing = pending(creating.advance(InitialiseEvent::AccountReady(ID)));
    assert!(matches!(storing.action(), InitialiseAction::StoreAccount { .. }));
    match storing.advance::<String>(InitialiseEvent::AccountStored) {
        Progress::Finished(Ok(account)) => account,
        _ => panic!("the account is initialised"),
    }
}

fn account(addresses: Vec<Address>, messages: Vec<Message>) -> Account {
    create(initialiser().alias("alias").addresses(addresses).messages(messages))
}

fn assert_written(write: &StorageWrite, account: &Account) {
    match &write.key {
        AccountIdentifier::Id(key) => assert_eq!(key, "0123456789abcdef0123456789abcdef"),
        AccountIdentifier::Index(_) => panic!("accounts are stored under their id"),
    }
    assert_eq!(&write.record.id, account.id());
    assert_eq!(&write.record.alias, account.alias());
    assert_eq!(&write.record.created_at, account.created_at());
    assert_eq!(&write.record.addresses, account.addresses());
    assert_eq!(&write.record.client_options, account.client_options());
}

#[test]
fn identifier_from_string_and_index() {
    match AccountIdentifier::from("my account".to_string()) {
        AccountIdentifier::Id(id) => assert_eq!(id, "my account"),
        AccountIdentifier::Index(_) => panic!("a string is an id"),
    }
    assert!(matches!(AccountIdentifier::from(7u64), AccountIdentifier::Index(7)));
}

#[test]
fn identifier_from_bytes() {
    let mut bytes: [u8; 32] = [b'a'; 32];
    bytes[0] = 0xc3;
    bytes[1] = 0xa9;
    let expected = format!("é{}", "a".repeat(30));
    for identifier in [AccountIdentifier::from(bytes), AccountIdentifier::from(&bytes)] {
        match identifier.clone() {
            AccountIdentifier::Id(id) => assert_eq!(id, expected),
            AccountIdentifier::Index(_) => panic!("bytes are an id"),
        }
    }
}

#[test]
fn identifier_from_invalid_bytes() {
    // Ids that are not UTF-8 can share an identifier.
    let expected = "\u{fffd}".repeat(32);
    for bytes in [[0xff; 32], [0xfe; 32]] {
        match AccountIdentifier::from(&bytes) {
            AccountIdentifier::Id(id) => assert_eq!(id, expected),
            AccountIdentifier::Index(_) => panic!("bytes are an id"),
        }
    }
}

#[test]
fn identifiers_of_invalid_bytes_can_differ() {
    let mut other = [0xff; 32];
    other[31] = b'a';
    match (AccountIdentifier::from([0xff; 32]), AccountIdentifier::from(other)) {
        (AccountIdentifier::Id(left), AccountIdentifier::Id(right)) => assert_ne!(left, right),
        _ => panic!("bytes are an id"),
    }
}

#[test]
fn initialise_creates_without_mnemonic() {
    let known = address(1, 10, 0);
    let old = message(9, known, 3, true, true);
    let made = create(initialiser().addresses(vec![known]).messages(vec![old]));
    assert_eq!(made.id(), &ID);
    assert_eq!(
        made.alias(),
        "account-3031323334353637383961626364656630313233343536373839616263646566"
    );
    assert_eq!(made.created_at(), &at(1_500, 7));
    assert_eq!(made.addresses(), &vec![known]);
    assert_eq!(made.messages(), &vec![old]);
    assert_eq!(made.client_options(), &ClientOptions::new("https://node"));
}

#[test]
fn given_alias_is_kept() {
    assert_eq!(create(initialiser().alias("mine")).alias(), "mine");
    assert_eq!(create(initialiser().alias("")).alias(), "");
}

#[test]
fn generated_aliases() {
    let digits = "0123456789abcdef";
    let mut id = [0; 32];
    for i in 0..16 {
        id[i] = (16 * i + (15 - i)) as u8;
    }
    let mut expected = "account-".to_string();
    for i in 0..16 {
        expected.push_str(&digits[i..i + 1]);
        expected.push_str(&digits[15 - i..16 - i]);
    }
    expected.push_str(&"0".repeat(32));
    assert_eq!(generate_alias(&id), expected);
    assert_ne!(generate_alias(&[1; 32]), generate_alias(&[2; 32]));
}

#[test]
fn timestamps_are_dates() {
    let cases = [
        (0, 0),
        (-1, 999_999_999),
        (59, 1_999_999_999),
        (59, 2_000_000_000),
        (MIN_SECONDS, 0),
        (MIN_SECONDS - 1, 0),
        (MAX_SECONDS, 0),
        (MAX_SECONDS + 1, 0),
        (i64::MIN, 0),
        (i64::MAX, 0),
    ];
    for (seconds, nanos) in cases {
        let date = chrono::DateTime::from_timestamp(seconds, nanos);
        assert_eq!(Timestamp::new(seconds, nanos).is_some(), date.is_some());
    }
    assert_eq!((at(-5, 7).seconds(), at(-5, 7).nanos()), (-5, 7));
    assert_eq!(chrono::DateTime::<chrono::Utc>::MIN_UTC.timestamp(), MIN_SECONDS);
    assert_eq!(chrono::DateTime::<chrono::Utc>::MAX_UTC.timestamp(), MAX_SECONDS);
}

#[test]
fn initialise_imports_with_mnemonic() {
    let opening = initialiser().alias("old").mnemonic("twelve words").initialise();
    let counting = pending(opening.advance(InitialiseEvent::StorageOpened));
    assert!(matches!(counting.action(), InitialiseAction::CountAccounts));
    let importing = pending(counting.advance(InitialiseEvent::AccountsCounted(3)));
    match importing.action() {
        InitialiseAction::ImportAccount { index, created_at, updated_at, mnemonic, password } => {
            assert_eq!(index, 3);
            assert_eq!(created_at, 1_500);
            assert_eq!(updated_at, 1_500);
            assert_eq!(mnemonic, "twelve words");
            assert_eq!(password, "password");
        }
        _ => panic!("an account is imported"),
    }
    let storing = pending(importing.advance(InitialiseEvent::AccountReady(ID)));
    let write = match storing.action() {
        InitialiseAction::StoreAccount { write } => write,
        _ => panic!("an account is stored"),
    };
    match storing.advance::<String>(InitialiseEvent::AccountStored) {
        Progress::Finished(Ok(account)) => {
            assert_eq!(account.alias(), "old");
            assert_written(&write, &account);
        }
        _ => panic!("the account is initialised"),
    }
}

#[test]
fn initialise_hands_failures_on() {
    let mut states: Vec<Initialisation> = vec![initialiser().initialise()];
    let opening = initialiser().mnemonic("words").initialise();
    states.push(pending(opening.advance(InitialiseEvent::StorageOpened)));
    let opening = initialiser().mnemonic("words").initialise();
    let counting = pending(opening.advance(InitialiseEvent::StorageOpened));
    states.push(pending(counting.advance(InitialiseEvent::AccountsCounted(0))));
    let opening = initialiser().initialise();
    states.push(pending(opening.advance(InitialiseEvent::StorageOpened)));
    let opening = initialiser().initialise();
    let creating = pending(opening.advance(InitialiseEvent::StorageOpened));
    states.push(pending(creating.advance(InitialiseEvent::AccountReady(ID))));
    assert_eq!(states.len(), 5);
    for state in states {
        match state.advance(InitialiseEvent::Failed("no disk".to_string())) {
            Progress::Finished(Err(error)) => assert_eq!(error, "no disk"),
            _ => panic!("a failure ends the initialisation"),
        }
    }
}

#[test]
fn initialise_waits_for_the_answer() {
    let opening = pending(initialiser().initialise().advance(InitialiseEvent::AccountStored));
    assert!(matches!(opening.action(), InitialiseAction::OpenStorage));
    let opening = pending(opening.advance(InitialiseEvent::AccountReady(ID)));
    assert!(matches!(opening.action(), InitialiseAction::OpenStorage));
}

#[test]
fn initialise_takes_the_current_time() {
    let seconds = || SystemTime::now().duration_since(UNIX_EPOCH).unwrap().as_secs() as i64;
    let before = seconds();
    let made = create(AccountInitialiser::new(ClientOptions::new("https://node")));
    let after = seconds();
    assert!(before <= made.created_at().seconds() && made.created_at().seconds() <= after);
    assert!(made.created_at().nanos() < 1_000_000_000);
}

#[test]
fn initialise_needs_a_time_since_1970() {
    assert!(initialiser().can_initialise());
    assert!(AccountInitialiser::new(ClientOptions::new("")).can_initialise());
    assert!(initialiser().created_at(at(0, 0)).can_initialise());
    assert!(!initialiser().created_at(at(-1, 0)).can_initialise());
}

#[test]
fn initialise_at_a_given_time() {
    let now = at(42, 1);
    let blank = AccountInitialiser::new(ClientOptions::new(""));
    let creating = pending(blank.initialise_at(now).advance(InitialiseEvent::StorageOpened));
    let storing = pending(creating.advance(InitialiseEvent::AccountReady(ID)));
    match storing.action() {
        InitialiseAction::StoreAccount { write } => assert_eq!(write.record.created_at, now),
        _ => panic!("an account is stored"),
    }
}

#[test]
fn latest_address_of_none_and_of_equals() {
    assert_eq!(account(vec![], vec![]).latest_address(), None);
    let account =
        account(vec![address(1, 0, 4), address(2, 0, 9), address(3, 0, 9), address(4, 0, 8)], vec![]);
    assert_eq!(account.latest_address(), Some(&address(3, 0, 9)));
}

#[test]
fn addresses_are_equal_by_their_bytes() {
    assert_eq!(address(1, 5, 0), address(1, 7, 3));
    assert_ne!(address(1, 5, 0), address(2, 5, 0));
}

#[test]
fn balances() {
    let own = address(1, 50, 0);
    let other = address(2, 0, 0);
    let account = account(
        vec![own, address(3, 7, 1)],
        vec![
            message(1, other, 20, false, true),
            message(2, other, 9, true, true),
            message(3, other, -4, false, true),
        ],
    );
    assert_eq!(account.total_balance(), 57);
    assert_eq!(account.available_balance(), 41);
}

#[test]
fn available_balance_of_a_negative_sum() {
    let rich = address(1, u64::MAX, 0);
    let account = account(vec![rich], vec![message(1, rich, -1, false, true)]);
    assert_eq!(account.available_balance(), 0);
}

#[test]
fn messages_from_a_starting_point() {
    let own = address(1, 0, 0);
    let other = address(2, 0, 0);
    let messages: Vec<Message> = (0..4)
        .map(|i| message(i, if i % 2 == 0 { own } else { other }, 0, true, true))
        .collect();
    let account = account(vec![own], messages.clone());
    let hashes = |count: u64, from: u64, message_type: Option<MessageType>| -> Vec<u8> {
        account.list_messages(count, from, message_type).iter().map(|m| m.hash().0[0]).collect()
    };
    assert_eq!(hashes(4, 0, None), vec![0, 1, 2, 3]);
    assert_eq!(hashes(4, 1, None), vec![0, 1, 2]);
    assert_eq!(hashes(4, 4, None), Vec::<u8>::new());
    assert_eq!(hashes(4, u64::MAX, None), Vec::<u8>::new());
    assert_eq!(hashes(0, 0, Some(MessageType::Received)), vec![0, 2]);
    assert_eq!(hashes(0, 1, Some(MessageType::Received)), vec![0]);
    assert_eq!(hashes(0, 0, Some(MessageType::Sent)), vec![1, 3]);
    assert_eq!(hashes(0, 2, Some(MessageType::Sent)), Vec::<u8>::new());
}

#[test]
fn most_recent_messages() {
    let own = address(1, 0, 0);
    let messages: Vec<Message> = (0..4).map(|i| message(i, own, 0, true, true)).collect();
    let account = account(vec![own], messages);
    let hashes = |count: u64, from: u64| -> Vec<u8> {
        account.list_messages(count, from, None).iter().map(|m| m.hash().0[0]).collect()
    };
    assert_eq!(hashes(0, 0), Vec::<u8>::new());
    assert_eq!(hashes(1, 0), vec![3]);
    assert_eq!(hashes(3, 0), vec![1, 2, 3]);
    assert_eq!(hashes(u64::MAX, 0), vec![0, 1, 2, 3]);
    assert_eq!(hashes(2, 1), vec![1, 2]);
    assert_eq!(hashes(2, 3), vec![0]);
    assert_eq!(hashes(2, 5), Vec::<u8>::new());
}

#[test]
fn message_types() {
    let own = address(1, 0, 0);
    let account = account(
        vec![own],
        vec![
            message(1, own, 0, true, false),
            message(2, own, -3, false, true),
            message(3, own, 3, true, true),
        ],
    );
    let hashes = |message_type: MessageType| -> Vec<u8> {
        account.list_messages(1, 0, Some(message_type)).iter().map(|m| m.hash().0[0]).collect()
    };
    assert_eq!(hashes(MessageType::Failed), vec![1]);
    assert_eq!(hashes(MessageType::Unconfirmed), vec![2]);
    assert_eq!(hashes(MessageType::Value), vec![3]);
}

#[test]
fn message_by_hash_is_the_first() {
    let own = address(1, 0, 0);
    let mut account = account(vec![own], vec![message(1, own, 5, true, true)]);
    account.append_messages(vec![message(1, own, 6, true, true), message(2, own, 7, true, true)]);
    let find = |hash: u8| {
        account.get_message(&iota_wallet::message::Hash([hash; 32])).map(|m| m.value().amount)
    };
    assert_eq!(find(1), Some(5));
    assert_eq!(find(2), Some(7));
    assert_eq!(find(3), None);
}

#[test]
fn addresses_by_verdict() {
    let account = account(vec![address(1, 1, 0), address(2, 2, 1), address(3, 3, 2)], vec![]);
    let is_unspent = |_: &Account, address: &IotaAddress| address.bytes[0] != 2;
    assert_eq!(account.list_addresses(true, is_unspent), vec![&address(1, 1, 0), &address(3, 3, 2)]);
    assert_eq!(account.list_addresses(false, is_unspent), vec![&address(2, 2, 1)]);
}

#[test]
fn unspent_and_spent_addresses_share_out_all() {
    let all = vec![address(2, 1, 0), address(1, 2, 1), address(2, 3, 2), address(3, 4, 3)];
    let account = account(all, vec![]);
    let is_unspent = |_: &Account, address: &IotaAddress| address.bytes[0] != 2;
    let indices = |unspent: bool| -> Vec<u64> {
        account.list_addresses(unspent, is_unspent).iter().map(|a| *a.key_index()).collect()
    };
    assert_eq!(indices(true), vec![1, 3]);
    assert_eq!(indices(false), vec![0, 2]);
}

#[test]
fn generated_address_is_linked_and_stored() {
    let mut account = account(vec![address(1, 4, 0)], vec![]);
    let (linked, write) = account.generate_address::<String>(Ok(address(2, 6, 1))).unwrap();
    assert_eq!((linked.address.bytes, linked.balance, linked.key_index), ([2; 32], 6, 1));
    assert_eq!(account.addresses(), &vec![address(1, 4, 0), address(2, 6, 1)]);
    assert_eq!(account.total_balance(), 10);
    assert_eq!(account.latest_address(), Some(&address(2, 6, 1)));
    assert_written(&write, &account);
}

#[test]
fn address_that_did_not_come_changes_nothing() {
    let mut account = account(vec![address(1, 4, 0)], vec![]);
    let before = account.clone();
    let error = account.generate_address(Err("offline".to_string())).unwrap_err();
    assert_eq!(error, "offline");
    assert_eq!(account, before);
}

#[test]
fn alias_alone_changes() {
    let own = address(1, 4, 0);
    let mut account = account(vec![own], vec![message(1, own, 5, true, true)]);
    let before = account.clone();
    let write = account.set_alias("other");
    assert_eq!(account.alias(), "other");
    assert_written(&write, &account);
    account.set_alias("alias");
    assert_eq!(account, before);
}

#[test]
fn record_leaves_out_the_messages() {
    let own = address(1, 4, 0);
    let mut account = account(vec![own], vec![message(1, own, 5, true, true)]);
    let read = Account::from_record(account.record());
    assert_eq!(read.messages(), &vec![]);
    account.set_messages(vec![]);
    assert_eq!(read, account);
    assert_written(&account.write(), &read);
}

#[test]
fn synchronizer_knows_the_account() {
    let account = account(vec![address(1, 4, 0)], vec![]);
    assert_eq!(account.sync().account, &account);
}

#[test]
fn initialised_account_parts() {
    let own = address(1, 4, 0);
    let sent = message(1, own, 5, true, true);
    let initialised = InitialisedAccount {
        id: "id",
        alias: "alias",
        addresses: vec![own],
        messages: vec![sent],
        created_at: at(1, 0),
        last_synced_at: at(2, 0),
    };
    assert_eq!(*initialised.id(), "id");
    assert_eq!(*initialised.alias(), "alias");
    assert_eq!(initialised.addresses(), &vec![own]);
    assert_eq!(initialised.messages(), &vec![sent]);
    assert_eq!(initialised.created_at().seconds(), 1);
    assert_eq!(initialised.last_synced_at().seconds(), 2);
}
