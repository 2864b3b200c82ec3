use vstd::prelude::*;
use vstd::utf8::{decode_utf8, valid_utf8};

verus! {

/// The account identifier.
#[derive(Debug)]
pub enum AccountIdentifier {
    /// An Id (string) identifier.
    Id(String),
    /// An index identifier.
    Index(u64),
}

/// What an account identifier says.
pub enum AccountIdentifierView {
    Id(Seq<char>),
    Index(u64),
}

impl View for AccountIdentifier {
    type V = AccountIdentifierView;

    open spec fn view(&self) -> AccountIdentifierView {
        match self {
            AccountIdentifier::Id(id) => AccountIdentifierView::Id(id@),
            AccountIdentifier::Index(index) => AccountIdentifierView::Index(*index),
        }
    }
}

impl Clone for AccountIdentifier {
    fn clone(&self) -> (copy: Self)
        ensures
            copy == *self,
    {
        match self {
            AccountIdentifier::Id(id) => AccountIdentifier::Id(id.clone()),
            AccountIdentifier::Index(index) => AccountIdentifier::Index(*index),
        }
    }
}

/// The text that `String::from_utf8_lossy` reads from bytes.
pub uninterp spec fn utf8_lossy(bytes: Seq<u8>) -> Seq<char>;

/// The text of the bytes, from `String::from_utf8_lossy`.
///
/// Bytes that are UTF-8 give the text that they encode. Of other bytes the documentation says
/// that each invalid sequence becomes a replacement character, without saying where one such
/// sequence ends and the next begins: there the text only has a name.
#[verifier::external_body]
fn from_utf8_lossy(bytes: &[u8; 32]) -> (text: String)
    ensures
        text@ == utf8_lossy(bytes@),
        valid_utf8(bytes@) ==> text@ == decode_utf8(bytes@),
{
    String::from_utf8_lossy(bytes).to_string()
}

/// The identifier of the account with the given stronghold id: the text of its bytes.
pub open spec fn identifier_of(id: Seq<u8>) -> AccountIdentifierView {
    if valid_utf8(id) {
        AccountIdentifierView::Id(decode_utf8(id))
    } else {
        AccountIdentifierView::Id(utf8_lossy(id))
    }
}

/// An identifier says its text or its index.
pub proof fn lemma_identifier_says(text: String, index: u64)
    ensures
        AccountIdentifier::Id(text)@ == AccountIdentifierView::Id(text@),
        AccountIdentifier::Index(index)@ == AccountIdentifierView::Index(index),
{
}

/// The identifier of a stronghold id is the text that its bytes encode, and where they encode
/// none, the text that is read from them anyway.
pub proof fn lemma_identifier_is_text(id: Seq<u8>)
    ensures
        valid_utf8(id) ==> identifier_of(id) == AccountIdentifierView::Id(decode_utf8(id)),
        !valid_utf8(id) ==> identifier_of(id) == AccountIdentifierView::Id(utf8_lossy(id)),
{
}

/// Accounts whose stronghold ids are UTF-8 share an identifier only if they share the id.
pub proof fn lemma_identifier_tells_ids_apart(left: Seq<u8>, right: Seq<u8>)
    requires
        valid_utf8(left),
        valid_utf8(right),
        identifier_of(left) == identifier_of(right),
    ensures
        left == right,
{
    vstd::utf8::decode_utf8_encode_utf8(left);
    vstd::utf8::decode_utf8_encode_utf8(right);
}

// When the identifier is a String (id).
impl From<String> for AccountIdentifier {
    fn from(value: String) -> (identifier: Self)
        ensures
            identifier == AccountIdentifier::Id(value),
    {
        AccountIdentifier::Id(value)
    }
}

impl vstd::std_specs::convert::FromSpecImpl<String> for AccountIdentifier {
    open spec fn obeys_from_spec() -> bool {
        true
    }

    open spec fn from_spec(value: String) -> Self {
        AccountIdentifier::Id(value)
    }
}

// When the identifier is a stronghold id.
impl From<[u8; 32]> for AccountIdentifier {
    fn from(value: [u8; 32]) -> (identifier: Self)
        ensures
            identifier@ == identifier_of(value@),
            identifier is Id,
            identifier->Id_0@ == utf8_lossy(value@),
            valid_utf8(value@) ==> identifier->Id_0@ == decode_utf8(value@),
    {
        AccountIdentifier::Id(from_utf8_lossy(&value))
    }
}

impl vstd::std_specs::convert::FromSpecImpl<[u8; 32]> for AccountIdentifier {
    open spec fn obeys_from_spec() -> bool {
        false
    }

    open spec fn from_spec(value: [u8; 32]) -> Self {
        arbitrary()
    }
}

impl From<&[u8; 32]> for AccountIdentifier {
    fn from(value: &[u8; 32]) -> (identifier: Self)
        ensures
            identifier@ == identifier_of(value@),
            identifier is Id,
            identifier->Id_0@ == utf8_lossy(value@),
            valid_utf8(value@) ==> identifier->Id_0@ == decode_utf8(value@),
    {
        AccountIdentifier::Id(from_utf8_lossy(value))
    }
}

impl vstd::std_specs::convert::FromSpecImpl<&[u8; 32]> for AccountIdentifier {
    open spec fn obeys_from_spec() -> bool {
        false
    }

    open spec fn from_spec(value: &[u8; 32]) -> Self {
        arbitrary()
    }
}

// When the identifier is an index.
impl From<u64> for AccountIdentifier {
    fn from(value: u64) -> (identifier: Self)
        ensures
            identifier == AccountIdentifier::Index(value),
    {
        AccountIdentifier::Index(value)
    }
}

impl vstd::std_specs::convert::FromSpecImpl<u64> for AccountIdentifier {
    open spec fn obeys_from_spec() -> bool {
        true
    }

    open spec fn from_spec(value: u64) -> Self {
        AccountIdentifier::Index(value)
    }
}

} // verus!
