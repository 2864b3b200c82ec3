//! What holds of an account across its operations.

use vstd::prelude::*;

use super::initialiser::{
    AccountInitialiserView, InitialisationView, InitialiseActionView, InitialiseEventView,
    ProgressView,
};
use super::identifier::AccountIdentifierView;
use super::record::AccountRecordView;
use super::{Account, AccountView};
use crate::address::{Address, IotaAddress};
use crate::message::{Message, MessageType};
use crate::time::Timestamp;

verus! {

/// An account without a mnemonic is created in stronghold and then stored: it asks for the
/// storage, for a new account, and for the account to be put into the storage, and is then
/// returned as it was stored, with everything that the initialiser was given.
pub proof fn lemma_initialise_creates<E>(
    initialiser: AccountInitialiserView,
    now: Timestamp,
    id: Seq<u8>,
)
    requires
        initialiser.mnemonic is None,
    ensures
        ({
            let opening = initialiser.start(now);
            let creating = InitialisationView::CreatingAccount { draft: initialiser.draft(now) };
            let account = initialiser.draft(now).account(id);
            let storing = InitialisationView::StoringAccount { account };
            &&& opening.action() == InitialiseActionView::OpenStorage
            &&& opening.advance(InitialiseEventView::<E>::StorageOpened) == ProgressView::<
                E,
            >::Pending(creating)
            &&& creating.action() == (InitialiseActionView::CreateAccount { password: "password"@ })
            &&& creating.advance(InitialiseEventView::<E>::AccountReady(id)) == ProgressView::<
                E,
            >::Pending(storing)
            &&& storing.action() == (InitialiseActionView::StoreAccount { write: account.write() })
            &&& storing.advance(InitialiseEventView::<E>::AccountStored) == ProgressView::<
                E,
            >::Finished(Ok(account))
        }),
{
}

/// An account with a mnemonic is imported into stronghold and then stored: it asks for the
/// storage, for the number of accounts there, for the import under that number, and for the
/// account to be put into the storage, and is then returned as it was stored.
pub proof fn lemma_initialise_imports<E>(
    initialiser: AccountInitialiserView,
    now: Timestamp,
    count: nat,
    id: Seq<u8>,
)
    requires
        initialiser.mnemonic is Some,
    ensures
        ({
            let draft = initialiser.draft(now);
            let mnemonic = initialiser.mnemonic->0;
            let seconds = initialiser.created_at_or(now)@.seconds;
            let opening = initialiser.start(now);
            let counting = InitialisationView::CountingAccounts { draft, mnemonic };
            let importing = InitialisationView::ImportingAccount { draft, mnemonic, index: count };
            let account = draft.account(id);
            let storing = InitialisationView::StoringAccount { account };
            &&& opening.action() == InitialiseActionView::OpenStorage
            &&& opening.advance(InitialiseEventView::<E>::StorageOpened) == ProgressView::<
                E,
            >::Pending(counting)
            &&& counting.action() == InitialiseActionView::CountAccounts
            &&& counting.advance(InitialiseEventView::<E>::AccountsCounted(count)) == ProgressView::<
                E,
            >::Pending(importing)
            &&& importing.action() == (InitialiseActionView::ImportAccount {
                index: count,
                created_at: seconds,
                updated_at: seconds,
                mnemonic,
                password: "password"@,
            })
            &&& importing.advance(InitialiseEventView::<E>::AccountReady(id)) == ProgressView::<
                E,
            >::Pending(storing)
            &&& storing.action() == (InitialiseActionView::StoreAccount { write: account.write() })
            &&& storing.advance(InitialiseEventView::<E>::AccountStored) == ProgressView::<
                E,
            >::Finished(Ok(account))
        }),
{
}

/// An account has the alias that it was given. One that was given none has a generated one, which
/// is not empty.
pub proof fn lemma_alias_given_or_generated(
    initialiser: AccountInitialiserView,
    now: Timestamp,
    id: Seq<u8>,
)
    ensures
        ({
            let account = initialiser.draft(now).account(id);
            match initialiser.alias {
                Some(alias) => account.alias == alias,
                None => account.alias == super::alias::generated_alias(id) && account.alias.len()
                    > 0,
            }
        }),
{
    super::alias::lemma_generated_alias_not_empty(id);
}

/// An action that fails ends the initialisation with its error, whatever the action was.
pub proof fn lemma_initialise_fails<E>(initialisation: InitialisationView, error: E)
    ensures
        initialisation.advance(InitialiseEventView::Failed(error)) == ProgressView::<E>::Finished(
            Err(error),
        ),
{
}

/// An account is returned only once it was stored: an initialisation that ends well was waiting
/// for that very account to be stored.
pub proof fn lemma_initialise_stores_first<E>(
    initialisation: InitialisationView,
    event: InitialiseEventView<E>,
    account: AccountView,
)
    requires
        initialisation.advance(event) == ProgressView::<E>::Finished(Ok(account)),
    ensures
        event is AccountStored,
        initialisation.action() == (InitialiseActionView::StoreAccount { write: account.write() }),
{
}

/// Once the write of a new alias is done, the storage gives back the account with that alias,
/// under the identifier that it had before; nothing else of it has changed.
pub proof fn lemma_alias_in_storage(
    storage: Map<AccountIdentifierView, AccountRecordView>,
    account: AccountView,
    alias: Seq<char>,
)
    ensures
        ({
            let key = account.write().key;
            let renamed = AccountView { alias, ..account };
            let written = renamed.write().apply(account.write().apply(storage));
            &&& written == renamed.write().apply(storage)
            &&& written.dom().contains(key)
            &&& written[key].account() == (AccountView { alias, ..account.record().account() })
        }),
{
    let renamed = AccountView { alias, ..account };
    assert(renamed.write().apply(account.write().apply(storage)) =~= renamed.write().apply(storage));
}

/// Without a message type, a starting point and a limit, all messages are listed.
pub proof fn lemma_list_all_messages(account: AccountView, count: nat)
    requires
        count >= account.messages.len(),
    ensures
        account.list_messages(count, 0, None) == account.messages,
{
    lemma_list_range(account, count, 0);
    assert(account.messages.subrange(0, account.messages.len() as int) =~= account.messages);
}

proof fn lemma_keep_all(messages: Seq<Message>, addresses: Seq<Address>)
    ensures
        crate::message::messages_of_type(messages, addresses, None) == messages,
    decreases messages.len(),
{
    reveal(Seq::filter);
    if messages.len() > 0 {
        lemma_keep_all(messages.drop_last(), addresses);
        assert(messages.drop_last().push(messages.last()) =~= messages);
    }
}

/// Without a message type, the list is a range of the messages: it ends before the `from` most
/// recent ones, and begins `count` messages before that, or with the first message.
pub proof fn lemma_list_range(account: AccountView, count: nat, from: nat)
    ensures
        ({
            let length = account.messages.len();
            let end = if from <= length {
                length - from
            } else {
                0
            };
            let start = if count <= end {
                end - count
            } else {
                0
            };
            account.list_messages(count, from, None) == account.messages.subrange(start, end)
        }),
{
    lemma_keep_all(account.messages, account.addresses);
    let length = account.messages.len();
    let end = if from <= length {
        length - from
    } else {
        0
    };
    let start = if count <= end {
        end - count
    } else {
        0
    };
    assert(account.list_messages(count, from, None) =~= account.messages.subrange(start, end));
}

/// Without a message type and a starting point, as many messages are listed as were asked for,
/// or all where there are no more, and they are the most recent ones.
pub proof fn lemma_count_limits(account: AccountView, count: nat)
    ensures
        ({
            let list = account.list_messages(count, 0, None);
            let length = account.messages.len();
            &&& list.len() == if count <= length {
                count
            } else {
                length
            }
            &&& list == account.messages.skip(length - list.len())
        }),
{
    lemma_list_range(account, count, 0);
    let list = account.list_messages(count, 0, None);
    assert(list =~= account.messages.skip(account.messages.len() - list.len()));
}

/// Without a message type, two lists fit together where the one begins at the starting point of
/// the other, further back by its count.
pub proof fn lemma_lists_fit_together(account: AccountView, recent: nat, older: nat, from: nat)
    ensures
        account.list_messages(older, from + recent, None) + account.list_messages(
            recent,
            from,
            None,
        ) == account.list_messages(recent + older, from, None),
{
    lemma_list_range(account, older, from + recent);
    lemma_list_range(account, recent, from);
    lemma_list_range(account, recent + older, from);
    assert(account.list_messages(older, from + recent, None) + account.list_messages(
        recent,
        from,
        None,
    ) =~= account.list_messages(recent + older, from, None));
}

/// With a message type, the count does not limit the list.
pub proof fn lemma_type_lifts_limit(
    account: AccountView,
    count: nat,
    other_count: nat,
    from: nat,
    message_type: MessageType,
)
    ensures
        account.list_messages(count, from, Some(message_type)) == account.list_messages(
            other_count,
            from,
            Some(message_type),
        ),
{
}

/// Only messages of the account of the wanted type are listed.
pub proof fn lemma_listed_messages_match(
    account: AccountView,
    count: nat,
    from: nat,
    message_type: Option<MessageType>,
    message: Message,
)
    requires
        account.list_messages(count, from, message_type).contains(message),
    ensures
        account.messages.contains(message),
        message.is_of_type(account.addresses, message_type),
{
    let keeps = |m: Message| m.is_of_type(account.addresses, message_type);
    let matching = account.messages.filter(keeps);
    let list = account.list_messages(count, from, message_type);
    let i = choose|i: int| 0 <= i < list.len() && #[trigger] list[i] == message;
    let skipped = crate::message::skip_most_recent(matching, from);
    let k = i + (skipped.len() - list.len());
    assert(skipped[k] == message);
    assert(matching[k] == message);
    account.messages.lemma_filter_pred(keeps, k);
    account.messages.lemma_filter_contains_rev(keeps, message);
}

/// Without a starting point, every message of the account of the wanted type is listed; where no
/// type is given, as far as the count allows for all messages.
pub proof fn lemma_matching_messages_listed(
    account: AccountView,
    count: nat,
    message_type: Option<MessageType>,
    message: Message,
)
    requires
        message_type is Some || count >= account.messages.len(),
        account.messages.contains(message),
        message.is_of_type(account.addresses, message_type),
    ensures
        account.list_messages(count, 0, message_type).contains(message),
{
    let keeps = |m: Message| m.is_of_type(account.addresses, message_type);
    let i = choose|i: int| 0 <= i < account.messages.len() && account.messages[i] == message;
    assert(keeps(account.messages[i]));
    account.messages.lemma_filter_contains(keeps, i);
    lemma_full_list(account, count, message_type);
}

proof fn lemma_full_list(account: AccountView, count: nat, message_type: Option<MessageType>)
    requires
        message_type is Some || count >= account.messages.len(),
    ensures
        account.list_messages(count, 0, message_type) == crate::message::messages_of_type(
            account.messages,
            account.addresses,
            message_type,
        ),
{
    if message_type is None {
        lemma_keep_all(account.messages, account.addresses);
        lemma_list_all_messages(account, count);
    }
    assert(account.list_messages(count, 0, message_type) =~= crate::message::messages_of_type(
        account.messages,
        account.addresses,
        message_type,
    ));
}

/// With a message type, a starting point that is further back leaves the list but for its end.
pub proof fn lemma_later_start_shortens(
    account: AccountView,
    count: nat,
    from: nat,
    more: nat,
    message_type: MessageType,
)
    ensures
        account.list_messages(count, from + more, Some(message_type))
            == crate::message::skip_most_recent(
            account.list_messages(count, from, Some(message_type)),
            more,
        ),
{
    assert(account.list_messages(count, from + more, Some(message_type))
        =~= crate::message::skip_most_recent(
        account.list_messages(count, from, Some(message_type)),
        more,
    ));
}

/// Every message of an account is either received or sent, and none is both.
pub proof fn lemma_received_or_sent(account: AccountView, count: nat)
    ensures
        account.list_messages(count, 0, Some(MessageType::Received)).to_multiset().add(
            account.list_messages(count, 0, Some(MessageType::Sent)).to_multiset(),
        ) == account.messages.to_multiset(),
        forall|message: Message|
            !(account.list_messages(count, 0, Some(MessageType::Received)).contains(message)
                && account.list_messages(count, 0, Some(MessageType::Sent)).contains(message)),
{
    let received = Some(MessageType::Received);
    let sent = Some(MessageType::Sent);
    lemma_received_and_sent_split(account.messages, account.addresses);
    lemma_full_list(account, count, received);
    lemma_full_list(account, count, sent);
    assert forall|message: Message|
        !(account.list_messages(count, 0, received).contains(message) && account.list_messages(
            count,
            0,
            sent,
        ).contains(message)) by {
        if account.list_messages(count, 0, received).contains(message) && account.list_messages(
            count,
            0,
            sent,
        ).contains(message) {
            lemma_listed_messages_match(account, count, 0, received, message);
            lemma_listed_messages_match(account, count, 0, sent, message);
        }
    }
}

proof fn lemma_received_and_sent_split(messages: Seq<Message>, addresses: Seq<Address>)
    ensures
        crate::message::messages_of_type(
            messages,
            addresses,
            Some(MessageType::Received),
        ).to_multiset().add(
            crate::message::messages_of_type(
                messages,
                addresses,
                Some(MessageType::Sent),
            ).to_multiset(),
        ) == messages.to_multiset(),
    decreases messages.len(),
{
    broadcast use vstd::seq_lib::group_to_multiset_ensures;

    reveal(Seq::filter);
    if messages.len() > 0 {
        lemma_received_and_sent_split(messages.drop_last(), addresses);
        assert(messages.drop_last().push(messages.last()) =~= messages);
    }
    assert(crate::message::messages_of_type(
        messages,
        addresses,
        Some(MessageType::Received),
    ).to_multiset().add(
        crate::message::messages_of_type(
            messages,
            addresses,
            Some(MessageType::Sent),
        ).to_multiset(),
    ) =~= messages.to_multiset());
}

/// Messages that are added are listed behind the ones that were there; where no type is given, as
/// far as the count allows for all messages.
pub proof fn lemma_append_lists_behind(
    account: AccountView,
    added: Seq<Message>,
    count: nat,
    message_type: Option<MessageType>,
)
    requires
        message_type is Some || count >= account.messages.len() + added.len(),
    ensures
        (AccountView { messages: account.messages + added, ..account }).list_messages(
            count,
            0,
            message_type,
        ) == account.list_messages(count, 0, message_type) + crate::message::messages_of_type(
            added,
            account.addresses,
            message_type,
        ),
{
    let keeps = |m: Message| m.is_of_type(account.addresses, message_type);
    Seq::filter_distributes_over_add(account.messages, added, keeps);
    let grown = AccountView { messages: account.messages + added, ..account };
    lemma_full_list(grown, count, message_type);
    lemma_full_list(account, count, message_type);
}

/// A message that is found by its hash is still found once messages were added.
pub proof fn lemma_append_keeps_found(
    account: AccountView,
    added: Seq<Message>,
    hash: Seq<u8>,
    found: Message,
)
    requires
        crate::message::is_first_with_hash(account.messages, hash, found),
    ensures
        crate::message::is_first_with_hash(account.messages + added, hash, found),
{
    let i = choose|i: int|
        {
            &&& 0 <= i < account.messages.len()
            &&& found == #[trigger] account.messages[i]
            &&& found.hash@ == hash
            &&& forall|j: int| 0 <= j < i ==> account.messages[j].hash@ != hash
        };
    assert((account.messages + added)[i] == found);
}

/// A message that was added is found by its hash, where no message had that hash before.
pub proof fn lemma_append_found(account: AccountView, added: Seq<Message>, hash: Seq<u8>, found: Message)
    requires
        crate::message::none_with_hash(account.messages, hash),
        crate::message::is_first_with_hash(added, hash, found),
    ensures
        crate::message::is_first_with_hash(account.messages + added, hash, found),
{
    let i = choose|i: int|
        {
            &&& 0 <= i < added.len()
            &&& found == #[trigger] added[i]
            &&& found.hash@ == hash
            &&& forall|j: int| 0 <= j < i ==> added[j].hash@ != hash
        };
    let grown = account.messages + added;
    let n = account.messages.len() as int;
    assert(grown[n + i] == found);
    assert forall|j: int| 0 <= j < n + i implies grown[j].hash@ != hash by {
        if j < n {
            assert(grown[j] == account.messages[j]);
        } else {
            assert(grown[j] == added[j - n]);
        }
    }
}

/// Where no message is unconfirmed, all of the balance is available.
pub proof fn lemma_confirmed_available(account: AccountView)
    requires
        forall|i: int|
            0 <= i < account.messages.len() ==> (#[trigger] account.messages[i]).confirmed,
    ensures
        account.available_balance() == account.total_balance(),
{
    lemma_confirmed_reserve_nothing(account.messages);
}

proof fn lemma_confirmed_reserve_nothing(messages: Seq<Message>)
    requires
        forall|i: int| 0 <= i < messages.len() ==> (#[trigger] messages[i]).confirmed,
    ensures
        crate::message::reserved(messages) == 0,
    decreases messages.len(),
{
    if messages.len() > 0 {
        lemma_confirmed_reserve_nothing(messages.drop_last());
    }
}

/// No more than the total balance is available, where the messages add up to the range of an
/// `i64`.
pub proof fn lemma_available_within_total(account: AccountView)
    requires
        account.reserved_fits(),
    ensures
        account.available_balance() <= account.total_balance(),
{
    assert(account.messages.take(account.messages.len() as int) =~= account.messages);
}

/// A message that is added lowers the available balance by its value as long as it is not
/// confirmed, and does not touch it once it is. Left out are the messages that turn the sum of the
/// unconfirmed values from negative to not negative, or back: there the sum, read as a `u64`,
/// wraps around.
pub proof fn lemma_message_lowers_available(account: AccountView, message: Message)
    requires
        (account.reserved() >= 0) == (account.reserved() + message.reserves() >= 0),
    ensures
        (AccountView {
            messages: account.messages.push(message),
            ..account
        }).available_balance() == account.available_balance() - message.reserves(),
{
    assert(account.messages.push(message).drop_last() =~= account.messages);
}

/// An address that is linked adds its balance to the total balance.
pub proof fn lemma_address_adds_balance(account: AccountView, address: Address)
    ensures
        (AccountView {
            addresses: account.addresses.push(address),
            ..account
        }).total_balance() == account.total_balance() + address.balance,
{
    assert(account.addresses.push(address).drop_last() =~= account.addresses);
}

/// There is at most one latest address.
pub proof fn lemma_latest_is_unique(addresses: Seq<Address>, left: Address, right: Address)
    requires
        crate::address::is_latest(addresses, left),
        crate::address::is_latest(addresses, right),
    ensures
        left == right,
{
}

/// An address that is linked with a key index no lower than the others is the latest one.
pub proof fn lemma_linked_is_latest(account: AccountView, address: Address)
    requires
        forall|i: int|
            0 <= i < account.addresses.len() ==> (#[trigger] account.addresses[i]).key_index
                <= address.key_index,
    ensures
        crate::address::is_latest(account.addresses.push(address), address),
{
    let grown = account.addresses.push(address);
    let last = account.addresses.len() as int;
    assert(grown[last] == address);
    assert forall|j: int| 0 <= j < last implies grown[j].key_index <= address.key_index by {
        assert(grown[j] == account.addresses[j]);
    }
}

/// Every address is listed either as unspent or as spent, going by the same verdicts.
pub proof fn lemma_unspent_or_spent(addresses: Seq<Address>, verdicts: Seq<bool>)
    requires
        verdicts.len() == addresses.len(),
    ensures
        crate::address::selected(addresses, verdicts, true).to_multiset().add(
            crate::address::selected(addresses, verdicts, false).to_multiset(),
        ) == addresses.to_multiset(),
    decreases addresses.len(),
{
    broadcast use vstd::seq_lib::group_to_multiset_ensures;

    if addresses.len() > 0 {
        let rest = addresses.drop_last();
        let fewer = verdicts.drop_last();
        lemma_unspent_or_spent(rest, fewer);
        crate::address::lemma_selected_prefix(rest, fewer, verdicts, true);
        crate::address::lemma_selected_prefix(rest, fewer, verdicts, false);
        assert(rest.push(addresses.last()) =~= addresses);
    }
    assert(crate::address::selected(addresses, verdicts, true).to_multiset().add(
        crate::address::selected(addresses, verdicts, false).to_multiset(),
    ) =~= addresses.to_multiset());
}

/// Where `is_unspent` answers each address of the account the same way every time, the lists of
/// the unspent and of the spent addresses share out the addresses of the account: every position
/// goes into exactly one of the two lists, and both keep the order of the account.
pub proof fn lemma_unspent_and_spent_lists<F: Fn(&Account, &IotaAddress) -> bool>(
    account: &Account,
    is_unspent: F,
    answer: spec_fn(IotaAddress) -> bool,
    unspent: Seq<Address>,
    spent: Seq<Address>,
)
    requires
        forall|i: int, verdict: bool|
            0 <= i < account@.addresses.len() && #[trigger] is_unspent.ensures(
                (account, &account@.addresses[i].address),
                verdict,
            ) ==> verdict == answer(account@.addresses[i].address),
        account.lists_addresses(is_unspent, true, unspent),
        account.lists_addresses(is_unspent, false, spent),
    ensures
        ({
            let addresses = account@.addresses;
            let verdicts = addresses.map_values(|address: Address| answer(address.address));
            let unspent_at = crate::address::selected_positions(verdicts, true);
            let spent_at = crate::address::selected_positions(verdicts, false);
            &&& unspent == unspent_at.map_values(|position: int| addresses[position])
            &&& spent == spent_at.map_values(|position: int| addresses[position])
            &&& forall|position: int|
                0 <= position < addresses.len() ==> unspent_at.contains(position)
                    != #[trigger] spent_at.contains(position)
            &&& forall|position: int| #[trigger]
                unspent_at.contains(position) <==> 0 <= position < addresses.len() && answer(
                    addresses[position].address,
                )
            &&& forall|position: int| #[trigger]
                spent_at.contains(position) <==> 0 <= position < addresses.len() && !answer(
                    addresses[position].address,
                )
            &&& forall|i: int, j: int|
                0 <= i < j < unspent_at.len() ==> unspent_at[i] < unspent_at[j]
            &&& forall|i: int, j: int| 0 <= i < j < spent_at.len() ==> spent_at[i] < spent_at[j]
            &&& unspent.len() + spent.len() == addresses.len()
            &&& unspent.to_multiset().add(spent.to_multiset()) == addresses.to_multiset()
        }),
{
    broadcast use vstd::seq_lib::group_to_multiset_ensures;

    let addresses = account@.addresses;
    let verdicts = addresses.map_values(|address: Address| answer(address.address));
    let for_unspent = choose|verdicts: Seq<bool>|
        {
            &&& #[trigger] account.verdicts_of(is_unspent, verdicts)
            &&& unspent == crate::address::selected(addresses, verdicts, true)
        };
    let for_spent = choose|verdicts: Seq<bool>|
        {
            &&& #[trigger] account.verdicts_of(is_unspent, verdicts)
            &&& spent == crate::address::selected(addresses, verdicts, false)
        };
    lemma_verdicts_are_answers(account, is_unspent, answer, for_unspent);
    lemma_verdicts_are_answers(account, is_unspent, answer, for_spent);
    assert(for_unspent =~= verdicts);
    assert(for_spent =~= verdicts);
    crate::address::lemma_selected_positions(addresses, verdicts, true);
    crate::address::lemma_selected_positions(addresses, verdicts, false);
    lemma_unspent_or_spent(addresses, verdicts);
    assert(unspent.to_multiset().add(spent.to_multiset()).len() == addresses.to_multiset().len());
}

proof fn lemma_verdicts_are_answers<F: Fn(&Account, &IotaAddress) -> bool>(
    account: &Account,
    is_unspent: F,
    answer: spec_fn(IotaAddress) -> bool,
    verdicts: Seq<bool>,
)
    requires
        forall|i: int, verdict: bool|
            0 <= i < account@.addresses.len() && #[trigger] is_unspent.ensures(
                (account, &account@.addresses[i].address),
                verdict,
            ) ==> verdict == answer(account@.addresses[i].address),
        account.verdicts_of(is_unspent, verdicts),
    ensures
        verdicts.len() == account@.addresses.len(),
        forall|i: int|
            0 <= i < verdicts.len() ==> #[trigger] verdicts[i] == answer(
                account@.addresses[i].address,
            ),
{
    assert forall|i: int| 0 <= i < verdicts.len() implies #[trigger] verdicts[i] == answer(
        account@.addresses[i].address,
    ) by {
        assert(is_unspent.ensures((account, &account@.addresses[i].address), verdicts[i]));
    }
}

/// The messages listed by type, told by their fields: a message of the account is among the failed
/// ones exactly if it was not broadcasted, among the unconfirmed ones exactly if it is not
/// confirmed, among those of value exactly if its value is above zero, among the received ones
/// exactly if its address has the bytes of an address of the account, and among the sent ones
/// exactly if it has not; whatever its other fields are.
pub proof fn lemma_listed_by_fields(account: AccountView, count: nat, message: Message)
    requires
        account.messages.contains(message),
    ensures
        account.list_messages(count, 0, Some(MessageType::Failed)).contains(message)
            <==> !message.broadcasted,
        account.list_messages(count, 0, Some(MessageType::Unconfirmed)).contains(message)
            <==> !message.confirmed,
        account.list_messages(count, 0, Some(MessageType::Value)).contains(message)
            <==> message.value.amount > 0,
        account.list_messages(count, 0, Some(MessageType::Received)).contains(message)
            <==> exists|i: int|
            0 <= i < account.addresses.len() && (#[trigger] account.addresses[i]).address.bytes@
                == message.address.address.bytes@,
        account.list_messages(count, 0, Some(MessageType::Sent)).contains(message)
            <==> forall|i: int|
            0 <= i < account.addresses.len() ==> (#[trigger] account.addresses[i]).address.bytes@
                != message.address.address.bytes@,
{
    lemma_listed_iff(account, count, MessageType::Failed, message);
    lemma_listed_iff(account, count, MessageType::Unconfirmed, message);
    lemma_listed_iff(account, count, MessageType::Value, message);
    lemma_listed_iff(account, count, MessageType::Received, message);
    lemma_listed_iff(account, count, MessageType::Sent, message);
}

proof fn lemma_listed_iff(
    account: AccountView,
    count: nat,
    message_type: MessageType,
    message: Message,
)
    requires
        account.messages.contains(message),
    ensures
        account.list_messages(count, 0, Some(message_type)).contains(message)
            <==> message.is_of_type(account.addresses, Some(message_type)),
{
    if account.list_messages(count, 0, Some(message_type)).contains(message) {
        lemma_listed_messages_match(account, count, 0, Some(message_type), message);
    }
    if message.is_of_type(account.addresses, Some(message_type)) {
        lemma_matching_messages_listed(account, count, Some(message_type), message);
    }
}

/// No list has a message that the account does not have.
pub proof fn lemma_listed_is_known(
    account: AccountView,
    count: nat,
    from: nat,
    message_type: Option<MessageType>,
    message: Message,
)
    requires
        !account.messages.contains(message),
    ensures
        !account.list_messages(count, from, message_type).contains(message),
{
    if account.list_messages(count, from, message_type).contains(message) {
        lemma_listed_messages_match(account, count, from, message_type, message);
    }
}

/// Nothing is listed of an account without messages.
pub proof fn lemma_list_of_none(
    account: AccountView,
    count: nat,
    from: nat,
    message_type: Option<MessageType>,
)
    requires
        account.messages.len() == 0,
    ensures
        account.list_messages(count, from, message_type).len() == 0,
{
    reveal(Seq::filter);
}

/// One more message comes last in each list that it belongs to by its fields, and leaves the others
/// as they are.
pub proof fn lemma_list_of_one_more(account: AccountView, count: nat, message: Message)
    ensures
        ({
            let grown = AccountView { messages: account.messages.push(message), ..account };
            let own = exists|i: int|
                0 <= i < account.addresses.len() && (#[trigger] account.addresses[i]).address.bytes@
                    == message.address.address.bytes@;
            let before = |t: MessageType| account.list_messages(count, 0, Some(t));
            let after = |t: MessageType| grown.list_messages(count, 0, Some(t));
            &&& own ==> after(MessageType::Received) == before(MessageType::Received).push(message)
            &&& !own ==> after(MessageType::Received) == before(MessageType::Received)
            &&& !own ==> after(MessageType::Sent) == before(MessageType::Sent).push(message)
            &&& own ==> after(MessageType::Sent) == before(MessageType::Sent)
            &&& !message.broadcasted ==> after(MessageType::Failed) == before(
                MessageType::Failed,
            ).push(message)
            &&& message.broadcasted ==> after(MessageType::Failed) == before(MessageType::Failed)
            &&& !message.confirmed ==> after(MessageType::Unconfirmed) == before(
                MessageType::Unconfirmed,
            ).push(message)
            &&& message.confirmed ==> after(MessageType::Unconfirmed) == before(
                MessageType::Unconfirmed,
            )
            &&& message.value.amount > 0 ==> after(MessageType::Value) == before(
                MessageType::Value,
            ).push(message)
            &&& message.value.amount <= 0 ==> after(MessageType::Value) == before(
                MessageType::Value,
            )
        }),
{
    lemma_one_more_of_type(account, count, MessageType::Received, message);
    lemma_one_more_of_type(account, count, MessageType::Sent, message);
    lemma_one_more_of_type(account, count, MessageType::Failed, message);
    lemma_one_more_of_type(account, count, MessageType::Unconfirmed, message);
    lemma_one_more_of_type(account, count, MessageType::Value, message);
}

proof fn lemma_one_more_of_type(
    account: AccountView,
    count: nat,
    message_type: MessageType,
    message: Message,
)
    ensures
        (AccountView { messages: account.messages.push(message), ..account }).list_messages(
            count,
            0,
            Some(message_type),
        ) == if message.is_of_type(account.addresses, Some(message_type)) {
            account.list_messages(count, 0, Some(message_type)).push(message)
        } else {
            account.list_messages(count, 0, Some(message_type))
        },
{
    let grown = AccountView { messages: account.messages.push(message), ..account };
    lemma_full_list(account, count, Some(message_type));
    lemma_full_list(grown, count, Some(message_type));
    reveal(Seq::filter);
    assert(grown.messages.drop_last() =~= account.messages);
}

/// With a message type, the starting point leaves out that many messages from the end of the list,
/// and all of them where there are no more.
pub proof fn lemma_start_drops_last(
    account: AccountView,
    count: nat,
    from: nat,
    message_type: MessageType,
)
    ensures
        ({
            let all = account.list_messages(count, 0, Some(message_type));
            let list = account.list_messages(count, from, Some(message_type));
            &&& from <= all.len() ==> list == all.take(all.len() - from)
            &&& from > all.len() ==> list.len() == 0
        }),
{
    let all = account.list_messages(count, 0, Some(message_type));
    lemma_full_list(account, count, Some(message_type));
    if from <= all.len() {
        assert(account.list_messages(count, from, Some(message_type)) =~= all.take(
            all.len() - from,
        ));
    }
}

/// What is looked up by a hash is the first message of the account with that hash, whatever its
/// other fields are; and nothing is found only if no message has it.
pub proof fn lemma_found_by_hash(messages: Seq<Message>, hash: Seq<u8>, i: int)
    requires
        0 <= i < messages.len(),
        messages[i].hash.0@ == hash,
        forall|j: int| 0 <= j < i ==> (#[trigger] messages[j]).hash.0@ != hash,
    ensures
        !crate::message::none_with_hash(messages, hash),
        crate::message::is_first_with_hash(messages, hash, messages[i]),
        forall|found: Message| #[trigger]
            crate::message::is_first_with_hash(messages, hash, found) ==> found == messages[i],
{
    assert forall|found: Message| #[trigger]
        crate::message::is_first_with_hash(messages, hash, found) implies found == messages[i] by {
        let k = choose|k: int|
            {
                &&& 0 <= k < messages.len()
                &&& found == #[trigger] messages[k]
                &&& found.hash@ == hash
                &&& forall|j: int| 0 <= j < k ==> messages[j].hash@ != hash
            };
        assert(messages[k].hash.0@ == hash);
        assert(messages[i].hash@ == hash);
        assert(k == i);
    }
}

/// Nothing is found by a hash that no message has.
pub proof fn lemma_not_found_by_hash(messages: Seq<Message>, hash: Seq<u8>)
    requires
        forall|i: int| 0 <= i < messages.len() ==> (#[trigger] messages[i]).hash.0@ != hash,
    ensures
        crate::message::none_with_hash(messages, hash),
        forall|found: Message|
            !#[trigger] crate::message::is_first_with_hash(messages, hash, found),
{
}

/// An account without addresses is worth nothing.
pub proof fn lemma_no_address_no_balance(account: AccountView)
    requires
        account.addresses.len() == 0,
    ensures
        account.total_balance() == 0,
{
}

/// Only the balances of its addresses make up what an account is worth.
pub proof fn lemma_total_of_balances(left: AccountView, right: AccountView)
    requires
        left.addresses.len() == right.addresses.len(),
        forall|i: int|
            0 <= i < left.addresses.len() ==> (#[trigger] left.addresses[i]).balance
                == right.addresses[i].balance,
    ensures
        left.total_balance() == right.total_balance(),
    decreases left.addresses.len(),
{
    if left.addresses.len() > 0 {
        let n = left.addresses.len() - 1;
        assert(left.addresses[n].balance == right.addresses[n].balance);
        lemma_total_of_balances(
            AccountView { addresses: left.addresses.drop_last(), ..left },
            AccountView { addresses: right.addresses.drop_last(), ..right },
        );
    }
}

/// Where an account has no messages, all of its balance is available.
pub proof fn lemma_no_message_all_available(account: AccountView)
    requires
        account.messages.len() == 0,
    ensures
        account.reserved() == 0,
        account.available_balance() == account.total_balance(),
{
}

/// A message that is not confirmed adds its value to what is reserved, and one that is confirmed
/// adds nothing, whatever their other fields are.
pub proof fn lemma_message_reserves_value(account: AccountView, message: Message)
    ensures
        ({
            let grown = AccountView { messages: account.messages.push(message), ..account };
            &&& !message.confirmed ==> grown.reserved() == account.reserved() + message.value.amount
            &&& message.confirmed ==> grown.reserved() == account.reserved()
            &&& grown.total_balance() == account.total_balance()
        }),
{
    assert(account.messages.push(message).drop_last() =~= account.messages);
}

/// A message that is not confirmed lowers the available balance by exactly its value, where that
/// is not negative and neither is what was reserved before; whatever its other fields are.
pub proof fn lemma_unconfirmed_lowers_available(account: AccountView, message: Message)
    requires
        !message.confirmed,
        message.value.amount >= 0,
        account.reserved() >= 0,
    ensures
        (AccountView {
            messages: account.messages.push(message),
            ..account
        }).available_balance() == account.available_balance() - message.value.amount,
{
    assert(account.messages.push(message).drop_last() =~= account.messages);
}

/// A message that is confirmed leaves the available balance as it is, whatever its other fields
/// are.
pub proof fn lemma_confirmed_leaves_available(account: AccountView, message: Message)
    requires
        message.confirmed,
    ensures
        (AccountView {
            messages: account.messages.push(message),
            ..account
        }).available_balance() == account.available_balance(),
{
    assert(account.messages.push(message).drop_last() =~= account.messages);
}

/// The available balance is the total less what is reserved; where less than nothing is reserved,
/// the difference wraps around once.
pub proof fn lemma_available_is_difference(account: AccountView)
    ensures
        account.reserved() >= 0 ==> account.available_balance() == account.total_balance()
            - account.reserved(),
        account.reserved() < 0 ==> account.available_balance() == account.total_balance()
            - account.reserved() - 18_446_744_073_709_551_616,
{
}

/// An address is the latest one exactly if it is one of the account, none has a higher key index,
/// and none behind it has the same.
pub proof fn lemma_latest_by_key_index(addresses: Seq<Address>, i: int)
    requires
        0 <= i < addresses.len(),
        forall|j: int|
            0 <= j < addresses.len() ==> (#[trigger] addresses[j]).key_index
                <= addresses[i].key_index,
        forall|j: int|
            i < j < addresses.len() ==> (#[trigger] addresses[j]).key_index
                != addresses[i].key_index,
    ensures
        crate::address::is_latest(addresses, addresses[i]),
        forall|latest: Address| #[trigger]
            crate::address::is_latest(addresses, latest) ==> latest == addresses[i],
{
    assert(crate::address::is_latest(addresses, addresses[i]));
    assert forall|latest: Address| #[trigger]
        crate::address::is_latest(addresses, latest) implies latest == addresses[i] by {
        lemma_latest_is_unique(addresses, latest, addresses[i]);
    }
}

} // verus!
