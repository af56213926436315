//! Lexicographic ordering of byte sequences and strings.
//!
//! The interval dictionaries keep their association lists sorted, and the
//! request signer sorts query pairs before serializing them; both need a
//! total order on strings that matches the byte-wise order `str` has in
//! Rust. The order is specified here over mathematical sequences, proved to
//! be a total order, and computed by an executable comparison.

use vstd::prelude::*;
use vstd::utf8::encode_utf8;
use vstd::utf8::encode_utf8_decode_utf8;

verus! {

/// Result of a three-way comparison between two keys.
pub enum KeyCmp {
    Less,
    Equal,
    Greater,
}

/// Byte-wise lexicographic "less than or equal" on byte sequences.
pub open spec fn bytes_le(a: Seq<u8>, b: Seq<u8>) -> bool
    decreases a.len(),
{
    if a.len() == 0 {
        true
    } else if b.len() == 0 {
        false
    } else if a[0] < b[0] {
        true
    } else if a[0] > b[0] {
        false
    } else {
        bytes_le(a.drop_first(), b.drop_first())
    }
}

/// The order relates every pair of byte sequences.
pub proof fn lemma_bytes_le_total(a: Seq<u8>, b: Seq<u8>)
    ensures
        bytes_le(a, b) || bytes_le(b, a),
    decreases a.len(),
{
    if a.len() != 0 && b.len() != 0 && a[0] == b[0] {
        lemma_bytes_le_total(a.drop_first(), b.drop_first());
    }
}

/// Two byte sequences each at most the other are equal.
pub proof fn lemma_bytes_le_antisym(a: Seq<u8>, b: Seq<u8>)
    requires
        bytes_le(a, b),
        bytes_le(b, a),
    ensures
        a == b,
    decreases a.len(),
{
    if a.len() == 0 {
        assert(b.len() == 0);
        assert(a =~= b);
    } else {
        assert(b.len() != 0);
        assert(a[0] == b[0]);
        lemma_bytes_le_antisym(a.drop_first(), b.drop_first());
        assert forall|i: int| 0 <= i < a.len() implies a[i] == b[i] by {
            if i > 0 {
                assert(a[i] == a.drop_first()[i - 1]);
                assert(b[i] == b.drop_first()[i - 1]);
            }
        }
        assert(a =~= b);
    }
}

/// The order is transitive.
pub proof fn lemma_bytes_le_trans(a: Seq<u8>, b: Seq<u8>, c: Seq<u8>)
    requires
        bytes_le(a, b),
        bytes_le(b, c),
    ensures
        bytes_le(a, c),
    decreases a.len(),
{
    if a.len() != 0 && b.len() != 0 && c.len() != 0 {
        if a[0] == b[0] && b[0] == c[0] {
            lemma_bytes_le_trans(a.drop_first(), b.drop_first(), c.drop_first());
        }
    }
}

/// Comparing two sequences with an equal prefix comes down to comparing what
/// follows the prefix.
proof fn lemma_bytes_le_skip(a: Seq<u8>, b: Seq<u8>, i: int)
    requires
        0 <= i <= a.len(),
        i <= b.len(),
        forall|j: int| 0 <= j < i ==> a[j] == b[j],
    ensures
        bytes_le(a, b) == bytes_le(a.skip(i), b.skip(i)),
    decreases i,
{
    if i == 0 {
        assert(a.skip(0) =~= a);
        assert(b.skip(0) =~= b);
    } else {
        assert(a[0] == b[0]);
        assert(forall|j: int| 0 <= j < i - 1 ==> a.drop_first()[j] == b.drop_first()[j]);
        lemma_bytes_le_skip(a.drop_first(), b.drop_first(), i - 1);
        assert(a.drop_first().skip(i - 1) =~= a.skip(i));
        assert(b.drop_first().skip(i - 1) =~= b.skip(i));
    }
}

/// Three-way comparison of byte slices in lexicographic order.
pub fn bytes_cmp(a: &[u8], b: &[u8]) -> (c: KeyCmp)
    ensures
        match c {
            KeyCmp::Less => bytes_le(a@, b@) && a@ != b@,
            KeyCmp::Equal => a@ == b@,
            KeyCmp::Greater => bytes_le(b@, a@) && a@ != b@,
        },
{
    let a_len = a.len();
    let b_len = b.len();
    let n = if a_len < b_len {
        a_len
    } else {
        b_len
    };
    let mut i: usize = 0;
    while i < n
        invariant
            n <= a@.len(),
            n <= b@.len(),
            i <= n,
            forall|j: int| 0 <= j < i ==> a@[j] == b@[j],
        decreases n - i,
    {
        let x = a[i];
        let y = b[i];
        if x < y {
            proof {
                lemma_bytes_le_skip(a@, b@, i as int);
            }
            return KeyCmp::Less;
        }
        if x > y {
            proof {
                lemma_bytes_le_skip(b@, a@, i as int);
            }
            return KeyCmp::Greater;
        }
        i += 1;
    }
    proof {
        lemma_bytes_le_skip(a@, b@, n as int);
        lemma_bytes_le_skip(b@, a@, n as int);
    }
    if a_len == b_len {
        proof {
            assert(a@ =~= b@);
        }
        KeyCmp::Equal
    } else if a_len < b_len {
        proof {
            assert(a@.skip(n as int).len() == 0);
            assert(a@.len() != b@.len());
        }
        KeyCmp::Less
    } else {
        proof {
            assert(b@.skip(n as int).len() == 0);
            assert(a@.len() != b@.len());
        }
        KeyCmp::Greater
    }
}

/// Lexicographic "less than or equal" on strings: the byte-wise order of
/// their UTF-8 encodings, the same order `str` comparison uses in Rust.
pub open spec fn str_le(a: Seq<char>, b: Seq<char>) -> bool {
    bytes_le(encode_utf8(a), encode_utf8(b))
}

pub proof fn lemma_str_le_total(a: Seq<char>, b: Seq<char>)
    ensures
        str_le(a, b) || str_le(b, a),
{
    lemma_bytes_le_total(encode_utf8(a), encode_utf8(b));
}

pub proof fn lemma_str_le_antisym(a: Seq<char>, b: Seq<char>)
    requires
        str_le(a, b),
        str_le(b, a),
    ensures
        a == b,
{
    lemma_bytes_le_antisym(encode_utf8(a), encode_utf8(b));
    encode_utf8_decode_utf8(a);
    encode_utf8_decode_utf8(b);
}

pub proof fn lemma_str_le_trans(a: Seq<char>, b: Seq<char>, c: Seq<char>)
    requires
        str_le(a, b),
        str_le(b, c),
    ensures
        str_le(a, c),
{
    lemma_bytes_le_trans(encode_utf8(a), encode_utf8(b), encode_utf8(c));
}

/// Three-way comparison of strings in the order of [`str_le`].
pub fn str_cmp(a: &str, b: &str) -> (c: KeyCmp)
    ensures
        match c {
            KeyCmp::Less => str_le(a@, b@) && a@ != b@,
            KeyCmp::Equal => a@ == b@,
            KeyCmp::Greater => str_le(b@, a@) && a@ != b@,
        },
{
    let c = bytes_cmp(a.as_bytes(), b.as_bytes());
    proof {
        encode_utf8_decode_utf8(a@);
        encode_utf8_decode_utf8(b@);
    }
    c
}

} // verus!
