use vstd::prelude::*;

use super::alias::generate_alias;
use super::record::{StorageWrite, StorageWriteView};
use super::{Account, AccountView};
use crate::address::Address;
use crate::client::ClientOptions;
use crate::message::Message;
use crate::time::{utc_now, Timestamp};

verus! {

/// The text of a string that may be missing.
pub open spec fn text_of(text: Option<String>) -> Option<Seq<char>> {
    match text {
        Some(text) => Some(text@),
        None => None,
    }
}

/// Account initialiser.
pub struct AccountInitialiser {
    mnemonic: Option<String>,
    alias: Option<String>,
    created_at: Option<Timestamp>,
    messages: Vec<Message>,
    addresses: Vec<Address>,
    client_options: ClientOptions,
}

/// What an account initialiser says.
#[verifier::ext_equal]
pub struct AccountInitialiserView {
    pub mnemonic: Option<Seq<char>>,
    pub alias: Option<Seq<char>>,
    pub created_at: Option<Timestamp>,
    pub messages: Seq<Message>,
    pub addresses: Seq<Address>,
    pub client_options: Seq<char>,
}

impl View for AccountInitialiser {
    type V = AccountInitialiserView;

    closed spec fn view(&self) -> AccountInitialiserView {
        AccountInitialiserView {
            mnemonic: text_of(self.mnemonic),
            alias: text_of(self.alias),
            created_at: self.created_at,
            messages: self.messages@,
            addresses: self.addresses@,
            client_options: self.client_options@,
        }
    }
}

impl AccountInitialiserView {
    /// Whether the account can be initialised: a time of creation, where one was given, is not
    /// before 1970.
    pub open spec fn can_initialise(self) -> bool {
        self.created_at matches Some(created_at) ==> created_at@.seconds >= 0
    }

    /// The time of creation, where it is `now`.
    pub open spec fn created_at_or(self, now: Timestamp) -> Timestamp {
        match self.created_at {
            Some(created_at) => created_at,
            None => now,
        }
    }

    /// What is known of the account before it has an id, where it is `now`.
    pub open spec fn draft(self, now: Timestamp) -> DraftView {
        DraftView {
            alias: self.alias,
            created_at: self.created_at_or(now),
            messages: self.messages,
            addresses: self.addresses,
            client_options: self.client_options,
        }
    }

    /// The start of the initialisation, where it is `now`.
    pub open spec fn start(self, now: Timestamp) -> InitialisationView {
        InitialisationView::OpeningStorage {
            draft: self.draft(now),
            optional_mnemonic: self.mnemonic,
        }
    }
}

impl AccountInitialiser {
    /// Initialises the account builder.
    pub fn new(client_options: ClientOptions) -> (initialiser: Self)
        ensures
            initialiser@ == (AccountInitialiserView {
                mnemonic: None,
                alias: None,
                created_at: None,
                messages: Seq::empty(),
                addresses: Seq::empty(),
                client_options: client_options@,
            }),
    {
        AccountInitialiser {
            mnemonic: None,
            alias: None,
            created_at: None,
            messages: Vec::new(),
            addresses: Vec::new(),
            client_options,
        }
    }

    /// Defines the account BIP-39 mnemonic.
    /// When importing an account from stronghold, the mnemonic won't be required.
    pub fn mnemonic(self, mnemonic: &str) -> (initialiser: Self)
        ensures
            initialiser@ == (AccountInitialiserView { mnemonic: Some(mnemonic@), ..self@ }),
    {
        AccountInitialiser { mnemonic: Some(mnemonic.to_owned()), ..self }
    }

    /// Defines the account alias. If not defined, we'll generate one from the account id.
    pub fn alias(self, alias: &str) -> (initialiser: Self)
        ensures
            initialiser@ == (AccountInitialiserView { alias: Some(alias@), ..self@ }),
    {
        AccountInitialiser { alias: Some(alias.to_owned()), ..self }
    }

    /// Time of account creation.
    pub fn created_at(self, created_at: Timestamp) -> (initialiser: Self)
        ensures
            initialiser@ == (AccountInitialiserView { created_at: Some(created_at), ..self@ }),
    {
        AccountInitialiser { created_at: Some(created_at), ..self }
    }

    /// Messages associated with the seed.
    /// The account can be initialised with locally stored messages.
    pub fn messages(self, messages: Vec<Message>) -> (initialiser: Self)
        ensures
            initialiser@ == (AccountInitialiserView { messages: messages@, ..self@ }),
    {
        AccountInitialiser { messages, ..self }
    }

    /// Address history associated with the seed.
    /// The account can be initialised with locally stored address history.
    pub fn addresses(self, addresses: Vec<Address>) -> (initialiser: Self)
        ensures
            initialiser@ == (AccountInitialiserView { addresses: addresses@, ..self@ }),
    {
        AccountInitialiser { addresses, ..self }
    }

    /// Whether the account can be initialised: a time of creation, where one was given, is not
    /// before 1970.
    pub fn can_initialise(&self) -> (can: bool)
        ensures
            can == self@.can_initialise(),
            can == (self@.created_at matches Some(created_at) ==> created_at@.seconds >= 0),
    {
        match self.created_at {
            Some(created_at) => created_at.seconds() >= 0,
            None => true,
        }
    }

    /// Starts to initialise the account. Where no time of creation was given, it is the current
    /// time.
    pub fn initialise(self) -> (initialisation: Initialisation)
        requires
            self@.can_initialise(),
        ensures
            match self@.created_at {
                Some(created_at) => initialisation@ == self@.start(created_at),
                None => exists|now: Timestamp|
                    {
                        &&& now@.is_date()
                        &&& now@.seconds >= 0
                        &&& now@.nanos < 1_000_000_000
                        &&& initialisation@ == #[trigger] self@.start(now)
                    },
            },
    {
        let now = match self.created_at {
            Some(created_at) => created_at,
            None => utc_now(),
        };
        self.initialise_at(now)
    }

    /// Starts to initialise the account, where it is `now`.
    pub fn initialise_at(self, now: Timestamp) -> (initialisation: Initialisation)
        requires
            self@.created_at_or(now)@.seconds >= 0,
        ensures
            initialisation@ == self@.start(now),
    {
        let created_at = match self.created_at {
            Some(created_at) => created_at,
            None => now,
        };
        Initialisation::OpeningStorage {
            draft: Draft {
                alias: self.alias,
                created_at,
                messages: self.messages,
                addresses: self.addresses,
                client_options: self.client_options,
            },
            optional_mnemonic: self.mnemonic,
        }
    }
}

/// What is known of an account before it has an id. It was not created before 1970.
pub struct Draft {
    alias: Option<String>,
    created_at: Timestamp,
    messages: Vec<Message>,
    addresses: Vec<Address>,
    client_options: ClientOptions,
}

/// What a draft says.
#[verifier::ext_equal]
pub struct DraftView {
    pub alias: Option<Seq<char>>,
    pub created_at: Timestamp,
    pub messages: Seq<Message>,
    pub addresses: Seq<Address>,
    pub client_options: Seq<char>,
}

impl View for Draft {
    type V = DraftView;

    closed spec fn view(&self) -> DraftView {
        DraftView {
            alias: text_of(self.alias),
            created_at: self.created_at,
            messages: self.messages@,
            addresses: self.addresses@,
            client_options: self.client_options@,
        }
    }
}

impl DraftView {
    /// The account that the draft becomes with the given id. An alias that was not given is
    /// generated.
    pub open spec fn account(self, id: Seq<u8>) -> AccountView {
        AccountView {
            id,
            alias: match self.alias {
                Some(alias) => alias,
                None => super::alias::generated_alias(id),
            },
            created_at: self.created_at,
            messages: self.messages,
            addresses: self.addresses,
            client_options: self.client_options,
        }
    }
}

impl Draft {
    #[verifier::type_invariant]
    spec fn created_since_1970(self) -> bool {
        self.created_at@.seconds >= 0
    }

    /// The time of creation, in seconds since 1970.
    fn timestamp(&self) -> (timestamp: u128)
        ensures
            timestamp == self@.created_at@.seconds,
    {
        proof {
            use_type_invariant(self);
        }
        self.created_at.seconds() as u128
    }

    /// The account that the draft becomes with the given id.
    fn account(self, id: [u8; 32]) -> (account: Account)
        ensures
            account@ == self@.account(id@),
    {
        let alias = match self.alias {
            Some(alias) => alias,
            None => generate_alias(&id),
        };
        Account {
            id,
            alias,
            created_at: self.created_at,
            messages: self.messages,
            addresses: self.addresses,
            client_options: self.client_options,
        }
    }
}

/// An initialisation that waits for the outside world: it asks for something to be done (see
/// `action`), and goes on with what came of it (see `advance`).
pub enum Initialisation {
    /// Waits for the storage.
    OpeningStorage { draft: Draft, optional_mnemonic: Option<String> },
    /// Waits for the number of accounts in the storage.
    CountingAccounts { draft: Draft, mnemonic: String },
    /// Waits for the account to be imported into stronghold.
    ImportingAccount { draft: Draft, mnemonic: String, index: usize },
    /// Waits for the account to be created in stronghold.
    CreatingAccount { draft: Draft },
    /// Waits for the account to be stored.
    StoringAccount { account: Account },
}

/// What an initialisation says.
pub enum InitialisationView {
    OpeningStorage { draft: DraftView, optional_mnemonic: Option<Seq<char>> },
    CountingAccounts { draft: DraftView, mnemonic: Seq<char> },
    ImportingAccount { draft: DraftView, mnemonic: Seq<char>, index: nat },
    CreatingAccount { draft: DraftView },
    StoringAccount { account: AccountView },
}

impl View for Initialisation {
    type V = InitialisationView;

    open spec fn view(&self) -> InitialisationView {
        match self {
            Initialisation::OpeningStorage {
                draft,
                optional_mnemonic,
            } => InitialisationView::OpeningStorage {
                draft: draft@,
                optional_mnemonic: text_of(*optional_mnemonic),
            },
            Initialisation::CountingAccounts { draft, mnemonic } => InitialisationView::CountingAccounts {
                draft: draft@,
                mnemonic: mnemonic@,
            },
            Initialisation::ImportingAccount { draft, mnemonic, index } => InitialisationView::ImportingAccount {
                draft: draft@,
                mnemonic: mnemonic@,
                index: *index as nat,
            },
            Initialisation::CreatingAccount { draft } => InitialisationView::CreatingAccount {
                draft: draft@,
            },
            Initialisation::StoringAccount { account } => InitialisationView::StoringAccount {
                account: account@,
            },
        }
    }
}

/// What an initialisation asks the outside world to do.
pub enum InitialiseAction<'a> {
    /// Get the storage adapter.
    OpenStorage,
    /// Count all accounts in the storage.
    CountAccounts,
    /// Import an account into stronghold.
    ImportAccount {
        index: usize,
        created_at: u128,
        updated_at: u128,
        mnemonic: &'a str,
        password: &'a str,
    },
    /// Create an account in stronghold.
    CreateAccount { password: &'a str },
    /// Put the account into the storage.
    StoreAccount { write: StorageWrite },
}

/// What an action says.
pub enum InitialiseActionView {
    OpenStorage,
    CountAccounts,
    ImportAccount {
        index: nat,
        created_at: int,
        updated_at: int,
        mnemonic: Seq<char>,
        password: Seq<char>,
    },
    CreateAccount { password: Seq<char> },
    StoreAccount { write: StorageWriteView },
}

impl<'a> View for InitialiseAction<'a> {
    type V = InitialiseActionView;

    open spec fn view(&self) -> InitialiseActionView {
        match self {
            InitialiseAction::OpenStorage => InitialiseActionView::OpenStorage,
            InitialiseAction::CountAccounts => InitialiseActionView::CountAccounts,
            InitialiseAction::ImportAccount {
                index,
                created_at,
                updated_at,
                mnemonic,
                password,
            } => InitialiseActionView::ImportAccount {
                index: *index as nat,
                created_at: *created_at as int,
                updated_at: *updated_at as int,
                mnemonic: mnemonic@,
                password: password@,
            },
            InitialiseAction::CreateAccount { password } => InitialiseActionView::CreateAccount {
                password: password@,
            },
            InitialiseAction::StoreAccount { write } => InitialiseActionView::StoreAccount {
                write: write@,
            },
        }
    }
}

/// What came of an action.
pub enum InitialiseEvent<E> {
    /// The storage is there.
    StorageOpened,
    /// The storage holds this many accounts.
    AccountsCounted(usize),
    /// Stronghold knows the account under this id.
    AccountReady([u8; 32]),
    /// The account is stored.
    AccountStored,
    /// The action failed.
    Failed(E),
}

/// What an event says.
pub enum InitialiseEventView<E> {
    StorageOpened,
    AccountsCounted(nat),
    AccountReady(Seq<u8>),
    AccountStored,
    Failed(E),
}

impl<E> View for InitialiseEvent<E> {
    type V = InitialiseEventView<E>;

    open spec fn view(&self) -> InitialiseEventView<E> {
        match self {
            InitialiseEvent::StorageOpened => InitialiseEventView::StorageOpened,
            InitialiseEvent::AccountsCounted(count) => InitialiseEventView::AccountsCounted(
                *count as nat,
            ),
            InitialiseEvent::AccountReady(id) => InitialiseEventView::AccountReady(id@),
            InitialiseEvent::AccountStored => InitialiseEventView::AccountStored,
            InitialiseEvent::Failed(error) => InitialiseEventView::Failed(*error),
        }
    }
}

/// How far an initialisation has come.
pub enum Progress<E> {
    /// It waits for the next action.
    Pending(Initialisation),
    /// It has come to its end.
    Finished(Result<Account, E>),
}

/// What a progress says.
pub enum ProgressView<E> {
    Pending(InitialisationView),
    Finished(Result<AccountView, E>),
}

impl<E> View for Progress<E> {
    type V = ProgressView<E>;

    open spec fn view(&self) -> ProgressView<E> {
        match self {
            Progress::Pending(initialisation) => ProgressView::Pending(initialisation@),
            Progress::Finished(Ok(account)) => ProgressView::Finished(Ok(account@)),
            Progress::Finished(Err(error)) => ProgressView::Finished(Err(*error)),
        }
    }
}

impl InitialisationView {
    /// What the initialisation asks for.
    pub open spec fn action(self) -> InitialiseActionView {
        match self {
            InitialisationView::OpeningStorage { .. } => InitialiseActionView::OpenStorage,
            InitialisationView::CountingAccounts { .. } => InitialiseActionView::CountAccounts,
            InitialisationView::ImportingAccount { draft, mnemonic, index } => InitialiseActionView::ImportAccount {
                index,
                created_at: draft.created_at@.seconds,
                updated_at: draft.created_at@.seconds,
                mnemonic,
                password: "password"@,
            },
            InitialisationView::CreatingAccount { .. } => InitialiseActionView::CreateAccount {
                password: "password"@,
            },
            InitialisationView::StoringAccount { account } => InitialiseActionView::StoreAccount {
                write: account.write(),
            },
        }
    }

    /// Where the initialisation goes from here. An action that failed ends it; an event that does
    /// not answer the action leaves it where it is.
    pub open spec fn advance<E>(self, event: InitialiseEventView<E>) -> ProgressView<E> {
        match (self, event) {
            (_, InitialiseEventView::Failed(error)) => ProgressView::Finished(Err(error)),
            (
                InitialisationView::OpeningStorage { draft, optional_mnemonic: Some(mnemonic) },
                InitialiseEventView::StorageOpened,
            ) => ProgressView::Pending(InitialisationView::CountingAccounts { draft, mnemonic }),
            (
                InitialisationView::OpeningStorage { draft, optional_mnemonic: None },
                InitialiseEventView::StorageOpened,
            ) => ProgressView::Pending(InitialisationView::CreatingAccount { draft }),
            (
                InitialisationView::CountingAccounts { draft, mnemonic },
                InitialiseEventView::AccountsCounted(index),
            ) => ProgressView::Pending(
                InitialisationView::ImportingAccount { draft, mnemonic, index },
            ),
            (
                InitialisationView::ImportingAccount { draft, .. },
                InitialiseEventView::AccountReady(id),
            ) => ProgressView::Pending(
                InitialisationView::StoringAccount { account: draft.account(id) },
            ),
            (
                InitialisationView::CreatingAccount { draft },
                InitialiseEventView::AccountReady(id),
            ) => ProgressView::Pending(
                InitialisationView::StoringAccount { account: draft.account(id) },
            ),
            (
                InitialisationView::StoringAccount { account },
                InitialiseEventView::AccountStored,
            ) => ProgressView::Finished(Ok(account)),
            (waiting, _) => ProgressView::Pending(waiting),
        }
    }
}

impl Initialisation {
    /// What the initialisation asks for.
    pub fn action(&self) -> (action: InitialiseAction<'_>)
        ensures
            action@ == self@.action(),
    {
        match self {
            Initialisation::OpeningStorage { .. } => InitialiseAction::OpenStorage,
            Initialisation::CountingAccounts { .. } => InitialiseAction::CountAccounts,
            Initialisation::ImportingAccount { draft, mnemonic, index } => {
                let timestamp = draft.timestamp();
                InitialiseAction::ImportAccount {
                    index: *index,
                    created_at: timestamp,
                    updated_at: timestamp,
                    mnemonic: mnemonic.as_str(),
                    password: "password",
                }
            },
            Initialisation::CreatingAccount { .. } => InitialiseAction::CreateAccount {
                password: "password",
            },
            Initialisation::StoringAccount { account } => InitialiseAction::StoreAccount {
                write: account.write(),
            },
        }
    }

    /// Goes on with what came of the action. An action that failed ends the initialisation; an
    /// event that does not answer the action leaves it where it is.
    pub fn advance<E>(self, event: InitialiseEvent<E>) -> (progress: Progress<E>)
        ensures
            progress@ == self@.advance(event@),
            event matches InitialiseEvent::Failed(error) ==> progress == Progress::<E>::Finished(
                Err(error),
            ),
    {
        match (self, event) {
            (_, InitialiseEvent::Failed(error)) => Progress::Finished(Err(error)),
            (
                Initialisation::OpeningStorage { draft, optional_mnemonic },
                InitialiseEvent::StorageOpened,
            ) => {
                match optional_mnemonic {
                    Some(mnemonic) => Progress::Pending(
                        Initialisation::CountingAccounts { draft, mnemonic },
                    ),
                    None => Progress::Pending(Initialisation::CreatingAccount { draft }),
                }
            },
            (
                Initialisation::CountingAccounts { draft, mnemonic },
                InitialiseEvent::AccountsCounted(index),
            ) => Progress::Pending(Initialisation::ImportingAccount { draft, mnemonic, index }),
            (
                Initialisation::ImportingAccount { draft, .. },
                InitialiseEvent::AccountReady(id),
            ) => Progress::Pending(Initialisation::StoringAccount { account: draft.account(id) }),
            (Initialisation::CreatingAccount { draft }, InitialiseEvent::AccountReady(id)) => {
                Progress::Pending(Initialisation::StoringAccount { account: draft.account(id) })
            },
            (Initialisation::StoringAccount { account }, InitialiseEvent::AccountStored) => {
                Progress::Finished(Ok(account))
            },
            (waiting, _) => Progress::Pending(waiting),
        }
    }
}

} // verus!
