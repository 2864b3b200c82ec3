//! What an initialisation does with what it is given, from its start to its end.

use vstd::prelude::*;

use super::identifier::AccountIdentifierView;
use super::initialiser::{
    text_of, AccountInitialiserView, DraftView, Initialisation, InitialisationView,
    InitialiseAction, InitialiseActionView, InitialiseEvent, InitialiseEventView, Progress,
    ProgressView,
};
use super::record::StorageWrite;
use super::{Account, AccountView};
use crate::time::Timestamp;

verus! {

/// An account can be initialised unless it is said to be created before 1970.
pub proof fn lemma_can_initialise(initialiser: AccountInitialiserView)
    ensures
        initialiser.created_at is None ==> initialiser.can_initialise(),
        initialiser.created_at is Some ==> (initialiser.can_initialise() <==> 0
            <= initialiser.created_at->0@.seconds),
{
}

/// An event says what came of the action.
pub proof fn lemma_event_says<E>(count: usize, id: [u8; 32], error: E)
    ensures
        InitialiseEvent::<E>::StorageOpened@ == InitialiseEventView::<E>::StorageOpened,
        InitialiseEvent::<E>::AccountsCounted(count)@ == InitialiseEventView::<E>::AccountsCounted(
            count as nat,
        ),
        InitialiseEvent::<E>::AccountReady(id)@ == InitialiseEventView::<E>::AccountReady(id@),
        InitialiseEvent::<E>::AccountStored@ == InitialiseEventView::<E>::AccountStored,
        InitialiseEvent::<E>::Failed(error)@ == InitialiseEventView::<E>::Failed(error),
{
}

/// An action says what it asks for.
pub proof fn lemma_action_says<'a>(
    index: usize,
    created_at: u128,
    updated_at: u128,
    mnemonic: &'a str,
    password: &'a str,
    write: StorageWrite,
)
    ensures
        InitialiseAction::OpenStorage@ == InitialiseActionView::OpenStorage,
        InitialiseAction::CountAccounts@ == InitialiseActionView::CountAccounts,
        (InitialiseAction::ImportAccount {
            index,
            created_at,
            updated_at,
            mnemonic,
            password,
        })@ == (InitialiseActionView::ImportAccount {
            index: index as nat,
            created_at: created_at as int,
            updated_at: updated_at as int,
            mnemonic: mnemonic@,
            password: password@,
        }),
        (InitialiseAction::CreateAccount { password })@
            == (InitialiseActionView::CreateAccount { password: password@ }),
        (InitialiseAction::StoreAccount { write })@ == (InitialiseActionView::StoreAccount {
            write: write@,
        }),
{
}

/// A progress says whether the initialisation goes on, and how it ended.
pub proof fn lemma_progress_says<E>(initialisation: Initialisation, account: Account, error: E)
    ensures
        Progress::<E>::Pending(initialisation)@ == ProgressView::<E>::Pending(initialisation@),
        Progress::<E>::Finished(Ok(account))@ == ProgressView::<E>::Finished(Ok(account@)),
        Progress::<E>::Finished(Err(error))@ == ProgressView::<E>::Finished(Err(error)),
{
}

/// A text that may be missing says what it is.
pub proof fn lemma_text_says(text: String)
    ensures
        text_of(Some(text)) == Some(text@),
        text_of(None) == None::<Seq<char>>,
{
}

/// Without a mnemonic, an initialisation opens the storage, creates the account in stronghold and
/// stores it. The account that it stores and returns has the id that stronghold answered with, and
/// the messages, addresses, client options, alias and time of creation that it was given.
pub proof fn lemma_created_account<E>(
    initialiser: AccountInitialiserView,
    now: Timestamp,
    id: Seq<u8>,
)
    requires
        initialiser.mnemonic is None,
    ensures
        ({
            let opening = initialiser.start(now);
            let opened = opening.advance(InitialiseEventView::<E>::StorageOpened);
            let creating = opened->Pending_0;
            let ready = creating.advance(InitialiseEventView::<E>::AccountReady(id));
            let storing = ready->Pending_0;
            let stored = storing.advance(InitialiseEventView::<E>::AccountStored);
            let account = stored->Finished_0->Ok_0;
            let write = storing.action()->write;
            &&& opening.action() is OpenStorage
            &&& opened is Pending
            &&& creating.action() == (InitialiseActionView::CreateAccount { password: "password"@ })
            &&& ready is Pending
            &&& storing.action() is StoreAccount
            &&& stored is Finished
            &&& stored->Finished_0 is Ok
            &&& account.id == id
            &&& account.messages == initialiser.messages
            &&& account.addresses == initialiser.addresses
            &&& account.client_options == initialiser.client_options
            &&& initialiser.alias is Some ==> account.alias == initialiser.alias->0
            &&& initialiser.alias is None ==> account.alias == super::alias::generated_alias(id)
            &&& initialiser.created_at is Some ==> account.created_at == initialiser.created_at->0
            &&& initialiser.created_at is None ==> account.created_at == now
            &&& vstd::utf8::valid_utf8(id) ==> write.key == AccountIdentifierView::Id(
                vstd::utf8::decode_utf8(id),
            )
            &&& !vstd::utf8::valid_utf8(id) ==> write.key == AccountIdentifierView::Id(
                super::identifier::utf8_lossy(id),
            )
            &&& write.record.id == id
            &&& write.record.alias == account.alias
            &&& write.record.created_at == account.created_at
            &&& write.record.addresses == initialiser.addresses
            &&& write.record.client_options == initialiser.client_options
        }),
{
}

/// With a mnemonic, an initialisation opens the storage, counts the accounts there, imports the
/// account into stronghold under that number and stores it. The account that it stores and returns
/// has the id that stronghold answered with, and the messages, addresses, client options, alias
/// and time of creation that it was given.
pub proof fn lemma_imported_account<E>(
    initialiser: AccountInitialiserView,
    now: Timestamp,
    count: nat,
    id: Seq<u8>,
)
    requires
        initialiser.mnemonic is Some,
    ensures
        ({
            let opening = initialiser.start(now);
            let opened = opening.advance(InitialiseEventView::<E>::StorageOpened);
            let counting = opened->Pending_0;
            let counted = counting.advance(InitialiseEventView::<E>::AccountsCounted(count));
            let importing = counted->Pending_0;
            let ready = importing.advance(InitialiseEventView::<E>::AccountReady(id));
            let storing = ready->Pending_0;
            let stored = storing.advance(InitialiseEventView::<E>::AccountStored);
            let account = stored->Finished_0->Ok_0;
            let write = storing.action()->write;
            &&& opening.action() is OpenStorage
            &&& opened is Pending
            &&& counting.action() is CountAccounts
            &&& counted is Pending
            &&& importing.action() == (InitialiseActionView::ImportAccount {
                index: count,
                created_at: account.created_at@.seconds,
                updated_at: account.created_at@.seconds,
                mnemonic: initialiser.mnemonic->0,
                password: "password"@,
            })
            &&& ready is Pending
            &&& storing.action() is StoreAccount
            &&& stored is Finished
            &&& stored->Finished_0 is Ok
            &&& account.id == id
            &&& account.messages == initialiser.messages
            &&& account.addresses == initialiser.addresses
            &&& account.client_options == initialiser.client_options
            &&& initialiser.alias is Some ==> account.alias == initialiser.alias->0
            &&& initialiser.alias is None ==> account.alias == super::alias::generated_alias(id)
            &&& initialiser.created_at is Some ==> account.created_at == initialiser.created_at->0
            &&& initialiser.created_at is None ==> account.created_at == now
            &&& vstd::utf8::valid_utf8(id) ==> write.key == AccountIdentifierView::Id(
                vstd::utf8::decode_utf8(id),
            )
            &&& !vstd::utf8::valid_utf8(id) ==> write.key == AccountIdentifierView::Id(
                super::identifier::utf8_lossy(id),
            )
            &&& write.record.id == id
            &&& write.record.alias == account.alias
            &&& write.record.created_at == account.created_at
            &&& write.record.addresses == initialiser.addresses
            &&& write.record.client_options == initialiser.client_options
        }),
{
}

/// A draft becomes an account with the id that stronghold answered with and everything that the
/// draft holds, whether it was created or imported.
pub proof fn lemma_draft_becomes_account<E>(
    draft: DraftView,
    mnemonic: Seq<char>,
    index: nat,
    id: Seq<u8>,
)
    ensures
        ({
            let creating = InitialisationView::CreatingAccount { draft };
            let importing = InitialisationView::ImportingAccount { draft, mnemonic, index };
            let created = creating.advance(InitialiseEventView::<E>::AccountReady(id));
            let imported = importing.advance(InitialiseEventView::<E>::AccountReady(id));
            let account = created->Pending_0->account;
            &&& imported == created
            &&& created is Pending
            &&& created->Pending_0 is StoringAccount
            &&& account.id == id
            &&& account.created_at == draft.created_at
            &&& account.messages == draft.messages
            &&& account.addresses == draft.addresses
            &&& account.client_options == draft.client_options
            &&& draft.alias is Some ==> account.alias == draft.alias->0
            &&& draft.alias is None ==> account.alias == super::alias::generated_alias(id)
        }),
{
}

/// Importing and creating come to the same account, where stronghold answers with the same id.
pub proof fn lemma_import_like_create<E>(
    initialiser: AccountInitialiserView,
    mnemonic: Seq<char>,
    now: Timestamp,
    count: nat,
    id: Seq<u8>,
)
    ensures
        ({
            let created = (AccountInitialiserView { mnemonic: None, ..initialiser }).start(
                now,
            ).advance(InitialiseEventView::<E>::StorageOpened)->Pending_0.advance(
                InitialiseEventView::<E>::AccountReady(id),
            );
            let imported = (AccountInitialiserView {
                mnemonic: Some(mnemonic),
                ..initialiser
            }).start(now).advance(InitialiseEventView::<E>::StorageOpened)->Pending_0.advance(
                InitialiseEventView::<E>::AccountsCounted(count),
            )->Pending_0.advance(InitialiseEventView::<E>::AccountReady(id));
            created is Pending && imported == created
        }),
{
}

/// Only the answer to its action, or a failure, moves an initialisation on.
pub proof fn lemma_other_events_wait<E>(
    initialisation: InitialisationView,
    event: InitialiseEventView<E>,
)
    requires
        !(event is Failed),
        initialisation.action() is OpenStorage ==> !(event is StorageOpened),
        initialisation.action() is CountAccounts ==> !(event is AccountsCounted),
        initialisation.action() is ImportAccount ==> !(event is AccountReady),
        initialisation.action() is CreateAccount ==> !(event is AccountReady),
        initialisation.action() is StoreAccount ==> !(event is AccountStored),
    ensures
        initialisation.advance(event) == ProgressView::<E>::Pending(initialisation),
{
}

/// An account that waits to be stored is written and then returned as it is.
pub proof fn lemma_stored_account_returned<E>(account: AccountView)
    ensures
        ({
            let storing = InitialisationView::StoringAccount { account };
            &&& storing.action() is StoreAccount
            &&& storing.action()->write.record.id == account.id
            &&& storing.action()->write.record.alias == account.alias
            &&& storing.action()->write.record.created_at == account.created_at
            &&& storing.action()->write.record.addresses == account.addresses
            &&& storing.action()->write.record.client_options == account.client_options
            &&& storing.advance(InitialiseEventView::<E>::AccountStored) == ProgressView::<
                E,
            >::Finished(Ok(account))
        }),
{
}

} // verus!
