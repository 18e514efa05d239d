//! Identifiers: 32-byte content keys, compared byte by byte.

use fastcrypto::encoding::Base58;
use fastcrypto::encoding::Encoding;
use vstd::prelude::*;

verus! {

broadcast use vstd::array::group_array_axioms;


/// The Base58 text of a byte string, as `fastcrypto::encoding::Base58` writes it.
pub uninterp spec fn base58_text(bytes: Seq<u8>) -> Seq<char>;

/// Calls `<fastcrypto::encoding::Base58 as Encoding>::encode` on the 32 bytes.
/// The text depends on the bytes alone; the contract only gives it its name.
#[verifier::external_body]
fn base58(bytes: &[u8; 32]) -> (text: String)
    ensures
        text@ == base58_text(bytes@),
{
    Base58::encode(bytes)
}

/// The content identifier of a transaction.
#[derive(Clone, Copy, Debug, PartialEq, Eq, Hash)]
pub struct TransactionDigest(pub [u8; 32]);

impl View for TransactionDigest {
    type V = Seq<u8>;

    open spec fn view(&self) -> Seq<u8> {
        self.0@
    }
}

impl TransactionDigest {
    pub fn new(bytes: [u8; 32]) -> (digest: Self)
        ensures
            digest.0 == bytes,
    {
        TransactionDigest(bytes)
    }

    /// The key under which the local store files the transaction.
    pub fn base58_encode(&self) -> (key: String)
        ensures
            key@ == base58_text(self@),
    {
        base58(&self.0)
    }
}

/// The digest of one version of an object.
#[derive(Clone, Copy, Debug, PartialEq, Eq, Hash)]
pub struct ObjectDigest(pub [u8; 32]);

/// The digest of a checkpoint.
#[derive(Clone, Copy, Debug, PartialEq, Eq, Hash)]
pub struct CheckpointDigest(pub [u8; 32]);

/// The address of an account.
#[derive(Clone, Copy, Debug, PartialEq, Eq, Hash)]
pub struct SuiAddress(pub [u8; 32]);

/// The identifier of an object: 32 bytes that denote a number, most
/// significant byte first. Ids are ordered as their numbers are, which is the
/// order of their bytes.
#[derive(Clone, Copy, Debug, PartialEq, Eq, PartialOrd, Ord, Hash)]
pub struct ObjectID(pub [u8; 32]);

impl View for ObjectID {
    type V = Seq<u8>;

    open spec fn view(&self) -> Seq<u8> {
        self.0@
    }
}

/// The number that `bytes` denote, most significant byte first.
pub open spec fn be_value(bytes: Seq<u8>) -> nat
    decreases bytes.len(),
{
    if bytes.len() == 0 {
        0
    } else {
        be_value(bytes.drop_last()) * 256 + bytes.last() as nat
    }
}

/// The number of byte strings of length `n`.
pub open spec fn pow256(n: nat) -> nat
    decreases n,
{
    if n == 0 {
        1
    } else {
        256 * pow256((n - 1) as nat)
    }
}

/// The number of object ids, 2^256.
pub open spec fn id_space() -> nat {
    0x1_0000_0000_0000_0000_0000_0000_0000_0000_0000_0000_0000_0000_0000_0000_0000_0000nat
}

/// Why an object id cannot be computed.
#[derive(Clone, Copy, Debug, PartialEq, Eq, Structural)]
pub enum IdError {
    /// The id would lie behind the last one.
    Overflow,
}

/// There are 256^32 ids.
pub proof fn lemma_id_space()
    ensures
        id_space() == pow256(32),
{
    reveal_with_fuel(pow256, 9);
    assert(pow256(8) == 0x1_0000_0000_0000_0000nat);
    assert(pow256(16) == 0x1_0000_0000_0000_0000_0000_0000_0000_0000nat);
    assert(pow256(24) == 0x1_0000_0000_0000_0000_0000_0000_0000_0000_0000_0000_0000_0000nat);
}

/// A byte string denotes a number below the number of strings of its length.
pub proof fn lemma_be_value_bound(bytes: Seq<u8>)
    ensures
        be_value(bytes) < pow256(bytes.len()),
    decreases bytes.len(),
{
    if bytes.len() > 0 {
        lemma_be_value_bound(bytes.drop_last());
    }
}

/// Of two byte strings of one length, the one with the smaller byte at the
/// first place where they differ denotes the smaller number.
pub proof fn lemma_first_difference_decides(a: Seq<u8>, b: Seq<u8>, j: int)
    requires
        a.len() == b.len(),
        0 <= j < a.len(),
        forall|k: int| 0 <= k < j ==> a[k] == b[k],
        a[j] < b[j],
    ensures
        be_value(a) < be_value(b),
    decreases a.len(),
{
    if j == a.len() - 1 {
        assert(a.drop_last() =~= b.drop_last());
    } else {
        lemma_first_difference_decides(a.drop_last(), b.drop_last(), j);
    }
}

/// Two byte strings of one length that denote the same number are the same.
pub proof fn lemma_be_value_injective(a: Seq<u8>, b: Seq<u8>)
    requires
        a.len() == b.len(),
        be_value(a) == be_value(b),
    ensures
        a == b,
    decreases a.len(),
{
    if a.len() > 0 {
        lemma_be_value_injective(a.drop_last(), b.drop_last());
        assert(a =~= a.drop_last().push(a.last()));
        assert(b =~= b.drop_last().push(b.last()));
    } else {
        assert(a =~= b);
    }
}

/// Adding one to the last byte that is not 0xff, and clearing the bytes behind
/// it, adds one to the number.
pub proof fn lemma_increment_adds_one(before: Seq<u8>, after: Seq<u8>, j: int)
    requires
        before.len() == after.len(),
        0 <= j < before.len(),
        forall|k: int| 0 <= k < j ==> after[k] == before[k],
        before[j] < 255,
        after[j] == before[j] + 1,
        forall|k: int| j < k < before.len() ==> before[k] == 255 && after[k] == 0,
    ensures
        be_value(after) == be_value(before) + 1,
    decreases before.len(),
{
    if j == before.len() - 1 {
        assert(after.drop_last() =~= before.drop_last());
    } else {
        lemma_increment_adds_one(before.drop_last(), after.drop_last(), j);
    }
}

/// The string of `n` bytes 0xff denotes the last number of its length.
pub proof fn lemma_all_ones_is_last(bytes: Seq<u8>)
    requires
        forall|k: int| 0 <= k < bytes.len() ==> bytes[k] == 255,
    ensures
        be_value(bytes) + 1 == pow256(bytes.len()),
    decreases bytes.len(),
{
    if bytes.len() > 0 {
        lemma_all_ones_is_last(bytes.drop_last());
    }
}

/// A longer byte string has at least as many values.
pub proof fn lemma_pow256_monotone(a: nat, b: nat)
    requires
        a <= b,
    ensures
        pow256(a) <= pow256(b),
        pow256(a) >= 1,
    decreases b,
{
    if a < b {
        lemma_pow256_monotone(a, (b - 1) as nat);
    } else if a > 0 {
        lemma_pow256_monotone((a - 1) as nat, (a - 1) as nat);
    }
}

/// The number of a byte string in two parts: the first part counts in units
/// of the number of strings of the length of the second.
pub proof fn lemma_be_value_concat(head: Seq<u8>, tail: Seq<u8>)
    ensures
        be_value(head + tail) == be_value(head) * pow256(tail.len()) + be_value(tail),
    decreases tail.len(),
{
    if tail.len() == 0 {
        assert(head + tail =~= head);
        assert(pow256(0) == 1);
        assert(be_value(head) * pow256(tail.len()) == be_value(head)) by (nonlinear_arith)
            requires
                pow256(tail.len()) == 1,
        ;
    } else {
        lemma_be_value_concat(head, tail.drop_last());
        let whole = head + tail;
        let shorter = pow256((tail.len() - 1) as nat);
        assert(whole.drop_last() =~= head + tail.drop_last());
        assert(whole.last() == tail.last());
        assert(be_value(whole) == be_value(head + tail.drop_last()) * 256 + tail.last() as nat);
        assert(pow256(tail.len()) == 256 * shorter);
        assert(be_value(head) * pow256(tail.len()) == (be_value(head) * shorter) * 256)
            by (nonlinear_arith)
            requires
                pow256(tail.len()) == 256 * shorter,
        ;
    }
}

/// The number of 128-bit words, 2^128.
pub open spec fn word_space() -> nat {
    0x1_0000_0000_0000_0000_0000_0000_0000_0000nat
}

/// The number that two 128-bit words denote, the more significant first.
pub open spec fn words_value(words: (u128, u128)) -> nat {
    words.0 as nat * word_space() + words.1 as nat
}

/// The two 128-bit words that denote `id`, for an `id` below 2^256.
pub open spec fn words_of(id: nat) -> (u128, u128) {
    ((id / word_space()) as u128, (id % word_space()) as u128)
}

/// Words and numbers below 2^256 stand for each other, one for one.
pub proof fn lemma_words(words: (u128, u128), id: nat)
    ensures
        words_value(words) < id_space(),
        words_of(words_value(words)) == words,
        id < id_space() ==> words_value(words_of(id)) == id,
{
    assert(word_space() * word_space() == id_space()) by (nonlinear_arith);
    assert(words_value(words) < id_space()) by (nonlinear_arith)
        requires
            words_value(words) == words.0 as nat * word_space() + words.1 as nat,
            words.0 as nat <= word_space() - 1,
            words.1 as nat <= word_space() - 1,
            word_space() * word_space() == id_space(),
    ;
    if id < id_space() {
        assert(id / word_space() < word_space()) by (nonlinear_arith)
            requires
                id < id_space(),
                word_space() * word_space() == id_space(),
                word_space() > 0,
        ;
    }
}

/// The order of pairs of words is the order of their numbers.
pub proof fn lemma_words_order(a: (u128, u128), b: (u128, u128))
    ensures
        words_value(a) < words_value(b) <==> (a.0 < b.0 || (a.0 == b.0 && a.1 < b.1)),
        words_value(a) == words_value(b) <==> a == b,
{
}

impl ObjectID {
    /// The number that the id denotes.
    pub open spec fn value(&self) -> nat {
        be_value(self.0@)
    }

    pub fn new(bytes: [u8; 32]) -> (id: Self)
        ensures
            id.0 == bytes,
    {
        ObjectID(bytes)
    }

    /// The half of the id that starts at byte `start`, as a 128-bit word.
    fn word_at(&self, start: usize) -> (word: u128)
        requires
            start + 16 <= 32,
        ensures
            word == be_value(self.0@.subrange(start as int, start + 16)),
    {
        let mut word: u128 = 0;
        let mut k: usize = 0;
        assert(self.0@.subrange(start as int, start as int).len() == 0);
        while k < 16
            invariant
                k <= 16,
                start + 16 <= 32,
                word == be_value(self.0@.subrange(start as int, start + k)),
            decreases 16 - k,
        {
            proof {
                let done = self.0@.subrange(start as int, start + k);
                let next = self.0@.subrange(start as int, start + k + 1);
                assert(next.drop_last() =~= done);
                assert(next.last() == self.0@[start + k]);
                lemma_be_value_bound(done);
                lemma_pow256_monotone(k as nat, 15);
                reveal_with_fuel(pow256, 16);
                assert(pow256(15) == 0x1_0000_0000_0000_0000_0000_0000_0000_00nat);
            }
            word = word * 256 + self.0[start + k] as u128;
            k = k + 1;
        }
        word
    }

    /// The id as two 128-bit words, the more significant first.
    pub fn to_words(&self) -> (words: (u128, u128))
        ensures
            words_value(words) == self.value(),
    {
        let high = self.word_at(0);
        let low = self.word_at(16);
        proof {
            let head = self.0@.subrange(0, 16);
            let tail = self.0@.subrange(16, 32);
            assert(self.0@ =~= head + tail);
            lemma_be_value_concat(head, tail);
            reveal_with_fuel(pow256, 17);
            assert(pow256(16) == word_space());
        }
        (high, low)
    }

    /// Byte-exact equality.
    pub fn same(&self, other: &ObjectID) -> (equal: bool)
        ensures
            equal == (self.value() == other.value()),
            equal == (*self == *other),
    {
        let mut i: usize = 0;
        while i < 32
            invariant
                i <= 32,
                forall|k: int| 0 <= k < i ==> self.0@[k] == other.0@[k],
            decreases 32 - i,
        {
            if self.0[i] != other.0[i] {
                proof {
                    if self.value() == other.value() {
                        lemma_be_value_injective(self.0@, other.0@);
                    }
                }
                return false;
            }
            i = i + 1;
        }
        assert(self.0 =~= other.0);
        true
    }

    /// Byte-exact order: the order of the numbers.
    pub fn less_than(&self, other: &ObjectID) -> (less: bool)
        ensures
            less == (self.value() < other.value()),
    {
        let mut i: usize = 0;
        while i < 32
            invariant
                i <= 32,
                forall|k: int| 0 <= k < i ==> self.0@[k] == other.0@[k],
            decreases 32 - i,
        {
            if self.0[i] < other.0[i] {
                proof {
                    lemma_first_difference_decides(self.0@, other.0@, i as int);
                }
                return true;
            }
            if self.0[i] > other.0[i] {
                proof {
                    lemma_first_difference_decides(other.0@, self.0@, i as int);
                }
                return false;
            }
            i = i + 1;
        }
        assert(self.0@ =~= other.0@);
        false
    }

    /// The id that follows this one, where there is one.
    pub fn next_increment(&self) -> (next: Result<ObjectID, IdError>)
        ensures
            next is Ok == (self.value() + 1 < id_space()),
            next matches Ok(id) ==> id.value() == self.value() + 1,
    {
        let mut bytes = self.0;
        let mut i: usize = 32;
        proof {
            lemma_id_space();
            lemma_be_value_bound(self.0@);
        }
        while i > 0
            invariant
                i <= 32,
                forall|k: int|
                    #![trigger self.0@[k]]
                    #![trigger bytes@[k]]
                    0 <= k < i ==> bytes@[k] == self.0@[k],
                forall|k: int|
                    #![trigger self.0@[k]]
                    #![trigger bytes@[k]]
                    i <= k < 32 ==> self.0@[k] == 255 && bytes@[k] == 0,
            decreases i,
        {
            i = i - 1;
            let ghost before = bytes@;
            assert(before[i as int] == self.0@[i as int]);
            if bytes[i] == 255 {
                bytes[i] = 0;
                assert(bytes@ == before.update(i as int, 0u8));
            } else {
                bytes[i] = bytes[i] + 1;
                proof {
                    assert(bytes@ == before.update(i as int, (before[i as int] + 1) as u8));
                    lemma_increment_adds_one(self.0@, bytes@, i as int);
                    lemma_be_value_bound(bytes@);
                    lemma_id_space();
                }
                return Ok(ObjectID(bytes));
            }
        }
        proof {
            lemma_all_ones_is_last(self.0@);
        }
        Err(IdError::Overflow)
    }

    /// `count` ids in a row, the first of them `offset`.
    ///
    /// It fails where the row would pass the last id, and only there: a row of
    /// no id never fails.
    pub fn in_range(offset: ObjectID, count: u64) -> (ids: Result<Vec<ObjectID>, IdError>)
        ensures
            ids is Ok == (count == 0 || offset.value() + count - 1 < id_space()),
            ids matches Ok(row) ==> {
                &&& row.len() == count
                &&& forall|i: int| 0 <= i < count ==> (#[trigger] row@[i]).value() == offset.value() + i
            },
    {
        let mut row: Vec<ObjectID> = Vec::new();
        let mut previous = offset;
        let mut done: u64 = 0;
        proof {
            lemma_id_space();
            lemma_be_value_bound(offset.0@);
        }
        while done < count
            invariant
                done <= count,
                row.len() == done,
                done > 0 ==> previous.value() == offset.value() + done - 1,
                done == 0 ==> previous == offset,
                offset.value() < id_space(),
                done == 0 || offset.value() + done - 1 < id_space(),
                forall|i: int| 0 <= i < done ==> (#[trigger] row@[i]).value() == offset.value() + i,
            decreases count - done,
        {
            if done != 0 {
                match previous.next_increment() {
                    Ok(next) => {
                        previous = next;
                    },
                    Err(error) => {
                        return Err(error);
                    },
                }
            }
            row.push(previous);
            done = done + 1;
        }
        Ok(row)
    }
}


} // verus!
