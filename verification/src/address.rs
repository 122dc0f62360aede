//! Ledger addresses.

use vstd::prelude::*;

verus! {

/// An account or contract address, identified by its 56 character strkey.
///
/// The characters are held as four big-endian integers: sixteen characters in
/// each of `head`, `mid` and `tail`, and the last eight in `check`. Two
/// addresses are equal exactly when their strkeys are (see
/// [`lemma_packing_is_injective`]).
#[derive(Clone, Copy, Debug, PartialEq, Eq, Structural)]
pub struct Address {
    pub head: u128,
    pub mid: u128,
    pub tail: u128,
    pub check: u64,
}

/// The number written by `bytes` in base 256, most significant byte first.
pub open spec fn big_endian(bytes: Seq<u8>) -> nat
    decreases bytes.len(),
{
    if bytes.len() == 0 {
        0
    } else {
        big_endian(bytes.drop_last()) * 256 + bytes.last() as nat
    }
}

/// 256 to the power `digits`.
pub open spec fn pow256(digits: nat) -> nat
    decreases digits,
{
    if digits == 0 {
        1
    } else {
        256 * pow256((digits - 1) as nat)
    }
}

/// The bytes of an ASCII text.
pub open spec fn ascii(text: Seq<char>) -> Seq<u8> {
    Seq::new(text.len(), |i: int| text[i] as u8)
}

/// The address whose strkey is the 56 bytes `strkey`.
pub open spec fn packed(strkey: Seq<u8>) -> Address {
    Address {
        head: big_endian(strkey.subrange(0, 16)) as u128,
        mid: big_endian(strkey.subrange(16, 32)) as u128,
        tail: big_endian(strkey.subrange(32, 48)) as u128,
        check: big_endian(strkey.subrange(48, 56)) as u64,
    }
}

/// The all-zero account (see [`lemma_zero_strkeys`]).
pub open spec fn zero_account_spec() -> Address {
    Address {
        head: 0x47414141_41414141_41414141_41414141,
        mid: 0x41414141_41414141_41414141_41414141,
        tail: 0x41414141_41414141_41414141_41414141,
        check: 0x41414141_41574846,
    }
}

/// The all-zero contract (see [`lemma_zero_strkeys`]).
pub open spec fn zero_contract_spec() -> Address {
    Address {
        head: 0x43414141_41414141_41414141_41414141,
        mid: 0x41414141_41414141_41414141_41414141,
        tail: 0x41414141_41414141_41414141_41414141,
        check: 0x41414141_42534334,
    }
}

/// `address` is one of the two all-zero addresses, which no key can sign for.
pub open spec fn is_zero(address: Address) -> bool {
    address == zero_account_spec() || address == zero_contract_spec()
}

proof fn lemma_big_endian_bound(bytes: Seq<u8>)
    ensures
        big_endian(bytes) < pow256(bytes.len()),
    decreases bytes.len(),
{
    if bytes.len() > 0 {
        lemma_big_endian_bound(bytes.drop_last());
    }
}

proof fn lemma_big_endian_injective(a: Seq<u8>, b: Seq<u8>)
    requires
        a.len() == b.len(),
        big_endian(a) == big_endian(b),
    ensures
        a == b,
    decreases a.len(),
{
    if a.len() > 0 {
        lemma_big_endian_injective(a.drop_last(), b.drop_last());
        assert(a =~= a.drop_last().push(a.last()));
        assert(b =~= b.drop_last().push(b.last()));
    } else {
        assert(a =~= b);
    }
}

proof fn lemma_word_sizes()
    ensures
        pow256(16) == u128::MAX + 1,
        pow256(8) == u64::MAX + 1,
{
    reveal_with_fuel(pow256, 17);
}

/// Addresses compare as their strkeys do: packing loses nothing.
pub proof fn lemma_packing_is_injective(a: Seq<u8>, b: Seq<u8>)
    requires
        a.len() == 56,
        b.len() == 56,
    ensures
        packed(a) == packed(b) <==> a == b,
{
    if packed(a) == packed(b) {
        lemma_word_sizes();
        lemma_big_endian_bound(a.subrange(0, 16));
        lemma_big_endian_bound(a.subrange(16, 32));
        lemma_big_endian_bound(a.subrange(32, 48));
        lemma_big_endian_bound(a.subrange(48, 56));
        lemma_big_endian_bound(b.subrange(0, 16));
        lemma_big_endian_bound(b.subrange(16, 32));
        lemma_big_endian_bound(b.subrange(32, 48));
        lemma_big_endian_bound(b.subrange(48, 56));
        lemma_big_endian_injective(a.subrange(0, 16), b.subrange(0, 16));
        lemma_big_endian_injective(a.subrange(16, 32), b.subrange(16, 32));
        lemma_big_endian_injective(a.subrange(32, 48), b.subrange(32, 48));
        lemma_big_endian_injective(a.subrange(48, 56), b.subrange(48, 56));
        assert forall|i: int| 0 <= i < 56 implies a[i] == b[i] by {
            if i < 16 {
                assert(a.subrange(0, 16)[i] == b.subrange(0, 16)[i]);
            } else if i < 32 {
                assert(a.subrange(16, 32)[i - 16] == b.subrange(16, 32)[i - 16]);
            } else if i < 48 {
                assert(a.subrange(32, 48)[i - 32] == b.subrange(32, 48)[i - 32]);
            } else {
                assert(a.subrange(48, 56)[i - 48] == b.subrange(48, 56)[i - 48]);
            }
        }
        assert(a =~= b);
    }
}

proof fn lemma_step(bytes: Seq<u8>, start: int, end: int)
    requires
        0 <= start < end <= bytes.len(),
    ensures
        big_endian(bytes.subrange(start, end)) == big_endian(bytes.subrange(start, end - 1)) * 256
            + bytes[end - 1],
{
    assert(bytes.subrange(start, end).drop_last() =~= bytes.subrange(start, end - 1));
}

/// The value of a run of eight bytes that extends a run read so far.
proof fn lemma_eight_steps(bytes: Seq<u8>, start: int, end: int)
    requires
        0 <= start <= end,
        end + 8 <= bytes.len(),
    ensures
        big_endian(bytes.subrange(start, end + 8)) == big_endian(bytes.subrange(start, end))
            * 0x1_0000_0000_0000_0000 + bytes[end] * 0x100_0000_0000_0000 + bytes[end + 1]
            * 0x1_0000_0000_0000 + bytes[end + 2] * 0x100_0000_0000 + bytes[end + 3] * 0x1_0000_0000
            + bytes[end + 4] * 0x100_0000 + bytes[end + 5] * 0x1_0000 + bytes[end + 6] * 0x100
            + bytes[end + 7],
{
    lemma_step(bytes, start, end + 1);
    lemma_step(bytes, start, end + 2);
    lemma_step(bytes, start, end + 3);
    lemma_step(bytes, start, end + 4);
    lemma_step(bytes, start, end + 5);
    lemma_step(bytes, start, end + 6);
    lemma_step(bytes, start, end + 7);
    lemma_step(bytes, start, end + 8);
}

/// The strkey of the all-zero account.
proof fn lemma_zero_account_strkey()
    ensures
        zero_account_spec() == packed(
            ascii("GAAAAAAAAAAAAAAAAAAAAAAAAAAAAAAAAAAAAAAAAAAAAAAAAAAAAWHF"@),
        ),
{
    reveal_strlit("GAAAAAAAAAAAAAAAAAAAAAAAAAAAAAAAAAAAAAAAAAAAAAAAAAAAAWHF");
    let text = ascii("GAAAAAAAAAAAAAAAAAAAAAAAAAAAAAAAAAAAAAAAAAAAAAAAAAAAAWHF"@);
    assert(text.subrange(0, 0) =~= Seq::<u8>::empty());
    assert(text.subrange(16, 16) =~= Seq::<u8>::empty());
    assert(text.subrange(32, 32) =~= Seq::<u8>::empty());
    assert(text.subrange(48, 48) =~= Seq::<u8>::empty());
    lemma_eight_steps(text, 0, 0);
    lemma_eight_steps(text, 0, 8);
    lemma_eight_steps(text, 16, 16);
    lemma_eight_steps(text, 16, 24);
    lemma_eight_steps(text, 32, 32);
    lemma_eight_steps(text, 32, 40);
    lemma_eight_steps(text, 48, 48);
}

/// The strkey of the all-zero contract.
proof fn lemma_zero_contract_strkey()
    ensures
        zero_contract_spec() == packed(
            ascii("CAAAAAAAAAAAAAAAAAAAAAAAAAAAAAAAAAAAAAAAAAAAAAAAAAAABSC4"@),
        ),
{
    reveal_strlit("CAAAAAAAAAAAAAAAAAAAAAAAAAAAAAAAAAAAAAAAAAAAAAAAAAAABSC4");
    let text = ascii("CAAAAAAAAAAAAAAAAAAAAAAAAAAAAAAAAAAAAAAAAAAAAAAAAAAABSC4"@);
    assert(text.subrange(0, 0) =~= Seq::<u8>::empty());
    assert(text.subrange(16, 16) =~= Seq::<u8>::empty());
    assert(text.subrange(32, 32) =~= Seq::<u8>::empty());
    assert(text.subrange(48, 48) =~= Seq::<u8>::empty());
    lemma_eight_steps(text, 0, 0);
    lemma_eight_steps(text, 0, 8);
    lemma_eight_steps(text, 16, 16);
    lemma_eight_steps(text, 16, 24);
    lemma_eight_steps(text, 32, 32);
    lemma_eight_steps(text, 32, 40);
    lemma_eight_steps(text, 48, 48);
}

/// The strkeys of the two all-zero addresses.
pub proof fn lemma_zero_strkeys()
    ensures
        zero_account_spec() == packed(
            ascii("GAAAAAAAAAAAAAAAAAAAAAAAAAAAAAAAAAAAAAAAAAAAAAAAAAAAAWHF"@),
        ),
        zero_contract_spec() == packed(
            ascii("CAAAAAAAAAAAAAAAAAAAAAAAAAAAAAAAAAAAAAAAAAAAAAAAAAAABSC4"@),
        ),
{
    lemma_zero_account_strkey();
    lemma_zero_contract_strkey();
}

impl Address {
    /// The big-endian number in `text[from..from + count]`.
    fn word(text: &[u8; 56], from: usize, count: usize) -> (r: u128)
        requires
            from + count <= 56,
            count <= 16,
        ensures
            r == big_endian(text@.subrange(from as int, from + count)),
    {
        let mut value: u128 = 0;
        let mut read: usize = 0;
        assert(text@.subrange(from as int, from as int) =~= Seq::<u8>::empty());
        while read < count
            invariant
                read <= count <= 16,
                from + count <= 56,
                value == big_endian(text@.subrange(from as int, from + read)),
            decreases count - read,
        {
            proof {
                let next = text@.subrange(from as int, from + read + 1);
                assert(next.drop_last() =~= text@.subrange(from as int, from + read));
                lemma_big_endian_bound(next);
                reveal_with_fuel(pow256, 17);
            }
            value = value * 256 + text[from + read] as u128;
            read = read + 1;
        }
        value
    }

    /// The all-zero account.
    pub fn zero_account() -> (r: Address)
        ensures
            r == zero_account_spec(),
    {
        Address {
            head: 0x47414141_41414141_41414141_41414141,
            mid: 0x41414141_41414141_41414141_41414141,
            tail: 0x41414141_41414141_41414141_41414141,
            check: 0x41414141_41574846,
        }
    }

    /// The all-zero contract.
    pub fn zero_contract() -> (r: Address)
        ensures
            r == zero_contract_spec(),
    {
        Address {
            head: 0x43414141_41414141_41414141_41414141,
            mid: 0x41414141_41414141_41414141_41414141,
            tail: 0x41414141_41414141_41414141_41414141,
            check: 0x41414141_42534334,
        }
    }

    /// Whether this is one of the two all-zero addresses.
    pub fn is_zero(&self) -> (r: bool)
        ensures
            r == is_zero(*self),
    {
        *self == Self::zero_account() || *self == Self::zero_contract()
    }

    /// The address with the strkey `text`.
    pub fn from_strkey(text: &[u8; 56]) -> (r: Address)
        ensures
            r == packed(text@),
    {
        proof {
            lemma_word_sizes();
            lemma_big_endian_bound(text@.subrange(48, 56));
        }
        Address {
            head: Self::word(text, 0, 16),
            mid: Self::word(text, 16, 16),
            tail: Self::word(text, 32, 16),
            check: Self::word(text, 48, 8) as u64,
        }
    }
}

} // verus!
