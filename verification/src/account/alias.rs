//! The alias of an account that was given none.

use vstd::prelude::*;
use vstd::string::StringExecFns;

verus! {

/// The hexadecimal digit of a number below 16.
pub open spec fn hex_digit(value: int) -> char {
    if value < 10 {
        ('0' as int + value) as char
    } else {
        ('a' as int + value - 10) as char
    }
}

/// Bytes in hexadecimal: two digits for each byte, the higher one first.
pub open spec fn hex(bytes: Seq<u8>) -> Seq<char> {
    Seq::new(
        2 * bytes.len(),
        |i: int|
            if i % 2 == 0 {
                hex_digit(bytes[i / 2] as int / 16)
            } else {
                hex_digit(bytes[i / 2] as int % 16)
            },
    )
}

/// The alias of an account with the given id that was given none: the id in hexadecimal, behind
/// a prefix.
pub open spec fn generated_alias(id: Seq<u8>) -> Seq<char> {
    "account-"@ + hex(id)
}

/// The hexadecimal digit of a number below 16, as text.
fn digit(value: u8) -> (text: &'static str)
    requires
        value < 16,
    ensures
        text@ == seq![hex_digit(value as int)],
{
    proof {
        reveal_strlit("0");
        reveal_strlit("1");
        reveal_strlit("2");
        reveal_strlit("3");
        reveal_strlit("4");
        reveal_strlit("5");
        reveal_strlit("6");
        reveal_strlit("7");
        reveal_strlit("8");
        reveal_strlit("9");
        reveal_strlit("a");
        reveal_strlit("b");
        reveal_strlit("c");
        reveal_strlit("d");
        reveal_strlit("e");
        reveal_strlit("f");
    }
    match value {
        0 => "0",
        1 => "1",
        2 => "2",
        3 => "3",
        4 => "4",
        5 => "5",
        6 => "6",
        7 => "7",
        8 => "8",
        9 => "9",
        10 => "a",
        11 => "b",
        12 => "c",
        13 => "d",
        14 => "e",
        _ => "f",
    }
}

/// The alias of an account with the given id that was given none.
pub fn generate_alias(id: &[u8; 32]) -> (alias: String)
    ensures
        alias@ == generated_alias(id@),
        alias@.len() > 0,
{
    let mut alias = "account-".to_owned();
    let mut i: usize = 0;
    assert(hex(id@.take(0)) =~= Seq::empty());
    while i < 32
        invariant
            0 <= i <= 32,
            alias@ == "account-"@ + hex(id@.take(i as int)),
        decreases 32 - i,
    {
        let byte: u8 = id[i];
        alias.append(digit(byte / 16));
        alias.append(digit(byte % 16));
        proof {
            lemma_hex_push(id@.take(i as int), byte);
            assert(id@.take(i as int).push(byte) =~= id@.take(i + 1));
        }
        i = i + 1;
    }
    assert(id@.take(32) =~= id@);
    proof {
        lemma_generated_alias_not_empty(id@);
    }
    alias
}

proof fn lemma_hex_push(bytes: Seq<u8>, byte: u8)
    ensures
        hex(bytes.push(byte)) == hex(bytes) + seq![hex_digit(byte as int / 16)] + seq![
            hex_digit(byte as int % 16),
        ],
{
    assert(hex(bytes.push(byte)) =~= hex(bytes) + seq![hex_digit(byte as int / 16)] + seq![
        hex_digit(byte as int % 16),
    ]);
}

/// A generated alias is not empty.
pub proof fn lemma_generated_alias_not_empty(id: Seq<u8>)
    ensures
        generated_alias(id).len() > 0,
{
    reveal_strlit("account-");
}

/// A generated alias is the prefix, and then two hexadecimal digits for each byte of the id, which
/// have the value of that byte.
pub proof fn lemma_generated_alias_reads(id: Seq<u8>, k: int)
    requires
        0 <= k < id.len(),
    ensures
        ({
            let alias = generated_alias(id);
            let high = alias[8 + 2 * k] as int;
            let low = alias[9 + 2 * k] as int;
            let value = |digit: int|
                if 48 <= digit <= 57 {
                    digit - 48
                } else {
                    digit - 87
                };
            &&& alias.len() == 8 + 2 * id.len()
            &&& alias.take(8) == "account-"@
            &&& 48 <= high <= 57 || 97 <= high <= 102
            &&& 48 <= low <= 57 || 97 <= low <= 102
            &&& 16 * value(high) + value(low) == id[k]
        }),
{
    reveal_strlit("account-");
    let alias = generated_alias(id);
    assert(alias.take(8) =~= "account-"@);
    assert(alias[8 + 2 * k] == hex(id)[2 * k]);
    assert(alias[9 + 2 * k] == hex(id)[2 * k + 1]);
    assert((2 * k) / 2 == k && (2 * k) % 2 == 0);
    assert((2 * k + 1) / 2 == k && (2 * k + 1) % 2 == 1);
}

/// Accounts with different ids are given different aliases.
pub proof fn lemma_generated_aliases_differ(left: Seq<u8>, right: Seq<u8>)
    requires
        generated_alias(left) == generated_alias(right),
    ensures
        left == right,
{
    let prefix = "account-"@.len() as int;
    assert(generated_alias(left).len() == prefix + 2 * left.len());
    assert(generated_alias(right).len() == prefix + 2 * right.len());
    assert forall|k: int| 0 <= k < left.len() implies left[k] == right[k] by {
        assert(generated_alias(left)[prefix + 2 * k] == hex(left)[2 * k]);
        assert(generated_alias(right)[prefix + 2 * k] == hex(right)[2 * k]);
        assert(generated_alias(left)[prefix + 2 * k + 1] == hex(left)[2 * k + 1]);
        assert(generated_alias(right)[prefix + 2 * k + 1] == hex(right)[2 * k + 1]);
        assert((2 * k) / 2 == k && (2 * k) % 2 == 0);
        assert((2 * k + 1) / 2 == k && (2 * k + 1) % 2 == 1);
        lemma_hex_digit_tells_apart(left[k] as int / 16, right[k] as int / 16);
        lemma_hex_digit_tells_apart(left[k] as int % 16, right[k] as int % 16);
    }
    assert(left =~= right);
}

proof fn lemma_hex_digit_tells_apart(left: int, right: int)
    requires
        0 <= left < 16,
        0 <= right < 16,
        hex_digit(left) == hex_digit(right),
    ensures
        left == right,
{
}

} // verus!
