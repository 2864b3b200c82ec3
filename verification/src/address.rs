use vstd::prelude::*;

verus! {

/// Whether two byte arrays hold the same bytes.
pub(crate) fn same_bytes(left: &[u8; 32], right: &[u8; 32]) -> (same: bool)
    ensures
        same == (left@ == right@),
{
    let mut i: usize = 0;
    while i < 32
        invariant
            0 <= i <= 32,
            forall|j: int| 0 <= j < i ==> left@[j] == right@[j],
        decreases 32 - i,
    {
        if left[i] != right[i] {
            return false;
        }
        i = i + 1;
    }
    assert(left@ =~= right@);
    true
}

/// An address of the ledger: the bytes that identify it.
#[derive(Debug, Clone, Copy)]
pub struct IotaAddress {
    pub bytes: [u8; 32],
}

impl View for IotaAddress {
    type V = Seq<u8>;

    open spec fn view(&self) -> Seq<u8> {
        self.bytes@
    }
}

impl IotaAddress {
    /// The address of the given Ed25519 bytes.
    pub fn from_ed25519_bytes(bytes: &[u8; 32]) -> (address: Self)
        ensures
            address@ == bytes@,
            address.bytes@ == bytes@,
    {
        IotaAddress { bytes: *bytes }
    }
}

impl PartialEq for IotaAddress {
    fn eq(&self, other: &Self) -> (same: bool)
        ensures
            same == (self.bytes@ == other.bytes@),
    {
        same_bytes(&self.bytes, &other.bytes)
    }
}

impl vstd::std_specs::cmp::PartialEqSpecImpl for IotaAddress {
    open spec fn obeys_eq_spec() -> bool {
        true
    }

    open spec fn eq_spec(&self, other: &Self) -> bool {
        self@ == other@
    }
}

/// An address of the ledger says its bytes.
pub proof fn lemma_iota_address_says(address: IotaAddress)
    ensures
        address@ == address.bytes@,
{
}

/// An address that an account knows, with what is known of it.
///
/// Two of them are equal when they are the same address of the ledger: the balance changes over
/// time, and only the owner of an address knows its key index.
#[derive(Debug, Clone, Copy)]
pub struct Address {
    /// The address of the ledger.
    pub address: IotaAddress,
    /// The balance of the address.
    pub balance: u64,
    /// The index of the key that the address was made from.
    pub key_index: u64,
}

impl Address {
    /// An address with the given balance and key index.
    pub fn new(address: IotaAddress, balance: u64, key_index: u64) -> (result: Self)
        ensures
            result == (Address { address, balance, key_index }),
    {
        Address { address, balance, key_index }
    }

    /// The address of the ledger.
    pub fn address(&self) -> (address: &IotaAddress)
        ensures
            *address == self.address,
    {
        &self.address
    }

    /// The balance of the address.
    pub fn balance(&self) -> (balance: &u64)
        ensures
            *balance == self.balance,
    {
        &self.balance
    }

    /// The index of the key that the address was made from.
    pub fn key_index(&self) -> (key_index: &u64)
        ensures
            *key_index == self.key_index,
    {
        &self.key_index
    }
}

impl PartialEq for Address {
    fn eq(&self, other: &Self) -> (same: bool)
        ensures
            same == (self.address.bytes@ == other.address.bytes@),
    {
        self.address == other.address
    }
}

impl vstd::std_specs::cmp::PartialEqSpecImpl for Address {
    open spec fn obeys_eq_spec() -> bool {
        true
    }

    open spec fn eq_spec(&self, other: &Self) -> bool {
        self.address@ == other.address@
    }
}

/// Whether `address` is one of `addresses`.
pub open spec fn holds(addresses: Seq<Address>, address: Address) -> bool {
    exists|i: int|
        0 <= i < addresses.len() && (#[trigger] addresses[i]).address@ == address.address@
}

/// The sum of the balances of `addresses`.
pub open spec fn balance_sum(addresses: Seq<Address>) -> nat
    decreases addresses.len(),
{
    if addresses.len() == 0 {
        0
    } else {
        balance_sum(addresses.drop_last()) + addresses.last().balance as nat
    }
}

/// The first addresses are worth no more than all of them.
pub(crate) proof fn lemma_balance_sum_take(addresses: Seq<Address>, n: int)
    requires
        0 <= n <= addresses.len(),
    ensures
        balance_sum(addresses.take(n)) <= balance_sum(addresses),
    decreases addresses.len() - n,
{
    if n == addresses.len() {
        assert(addresses.take(n) =~= addresses);
    } else {
        assert(addresses.take(n + 1).drop_last() =~= addresses.take(n));
        lemma_balance_sum_take(addresses, n + 1);
    }
}

/// Whether `latest` is the address of `addresses` with the highest key index, and the last one
/// where several share that index.
pub open spec fn is_latest(addresses: Seq<Address>, latest: Address) -> bool {
    exists|i: int|
        {
            &&& 0 <= i < addresses.len()
            &&& latest == #[trigger] addresses[i]
            &&& forall|j: int| 0 <= j < i ==> addresses[j].key_index <= latest.key_index
            &&& forall|j: int| i < j < addresses.len() ==> addresses[j].key_index < latest.key_index
        }
}

/// The addresses whose verdict is the wanted one, in order.
pub open spec fn selected(addresses: Seq<Address>, verdicts: Seq<bool>, wanted: bool) -> Seq<
    Address,
>
    decreases addresses.len(),
{
    if addresses.len() == 0 {
        Seq::empty()
    } else {
        let rest = selected(addresses.drop_last(), verdicts, wanted);
        if verdicts[addresses.len() - 1] == wanted {
            rest.push(addresses.last())
        } else {
            rest
        }
    }
}

/// The positions whose verdict is the wanted one, in order.
pub open spec fn selected_positions(verdicts: Seq<bool>, wanted: bool) -> Seq<int>
    decreases verdicts.len(),
{
    if verdicts.len() == 0 {
        Seq::empty()
    } else {
        let rest = selected_positions(verdicts.drop_last(), wanted);
        if verdicts.last() == wanted {
            rest.push(verdicts.len() - 1)
        } else {
            rest
        }
    }
}

/// The selected positions are those with the wanted verdict, each once, in increasing order; the
/// selected addresses are the ones at these positions.
pub proof fn lemma_selected_positions(addresses: Seq<Address>, verdicts: Seq<bool>, wanted: bool)
    requires
        verdicts.len() == addresses.len(),
    ensures
        selected(addresses, verdicts, wanted) == selected_positions(verdicts, wanted).map_values(
            |position: int| addresses[position],
        ),
        forall|position: int| #[trigger]
            selected_positions(verdicts, wanted).contains(position) <==> 0 <= position
                < verdicts.len() && verdicts[position] == wanted,
        forall|i: int, j: int|
            0 <= i < j < selected_positions(verdicts, wanted).len() ==> selected_positions(
                verdicts,
                wanted,
            )[i] < selected_positions(verdicts, wanted)[j],
    decreases verdicts.len(),
{
    let positions = selected_positions(verdicts, wanted);
    let at = |position: int| addresses[position];
    if verdicts.len() > 0 {
        let fewer = verdicts.drop_last();
        let rest = selected_positions(fewer, wanted);
        let n = verdicts.len() - 1;
        lemma_selected_positions(addresses.drop_last(), fewer, wanted);
        lemma_selected_prefix(addresses.drop_last(), fewer, verdicts, wanted);
        assert forall|i: int| 0 <= i < rest.len() implies 0 <= #[trigger] rest[i] < n by {
            assert(rest.contains(rest[i]));
            assert(fewer[rest[i]] == wanted);
        }
        assert(rest.map_values(at) =~= rest.map_values(
            |position: int| addresses.drop_last()[position],
        ));
        if verdicts[n] == wanted {
            assert(positions == rest.push(n));
            assert(positions.map_values(at) =~= rest.map_values(at).push(addresses[n]));
        }
        assert forall|position: int| #[trigger]
            positions.contains(position) <==> 0 <= position < verdicts.len()
                && verdicts[position] == wanted by {
            assert(rest.contains(position) <==> 0 <= position < n && fewer[position] == wanted);
            if verdicts[n] == wanted {
                assert(positions[rest.len() as int] == n);
                if rest.contains(position) {
                    let i = choose|i: int| 0 <= i < rest.len() && rest[i] == position;
                    assert(positions[i] == position);
                }
                if positions.contains(position) && position != n {
                    let i = choose|i: int| 0 <= i < positions.len() && positions[i] == position;
                    assert(rest[i] == position);
                }
            }
        }
    } else {
        assert(positions.map_values(at) =~= selected(addresses, verdicts, wanted));
    }
}

/// Which addresses are selected depends on their own verdicts only.
pub(crate) proof fn lemma_selected_prefix(
    addresses: Seq<Address>,
    left: Seq<bool>,
    right: Seq<bool>,
    wanted: bool,
)
    requires
        forall|i: int| 0 <= i < addresses.len() ==> left[i] == right[i],
    ensures
        selected(addresses, left, wanted) == selected(addresses, right, wanted),
    decreases addresses.len(),
{
    if addresses.len() > 0 {
        lemma_selected_prefix(addresses.drop_last(), left, right, wanted);
    }
}

/// Whether `address` is one of `addresses`.
pub(crate) fn contains(addresses: &Vec<Address>, address: &Address) -> (found: bool)
    ensures
        found == holds(addresses@, *address),
{
    let mut i: usize = 0;
    while i < addresses.len()
        invariant
            0 <= i <= addresses.len(),
            forall|j: int| 0 <= j < i ==> addresses@[j].address@ != address.address@,
        decreases addresses.len() - i,
    {
        if addresses[i] == *address {
            return true;
        }
        i = i + 1;
    }
    false
}

} // verus!
