//! Request signing: canonical query string and HMAC-SHA256 signature.
//!
//! A signed GET request carries three headers: the API key, a Base64
//! HMAC-SHA256 signature, and the timestamp that went into it. The signed
//! payload is `METHOD\nPATH\nPARAMS`, where `PARAMS` is the query with a
//! `signTimestamp` pair appended, sorted by `(key, value)`, and
//! URL-encoded. Everything up to the two cryptographic calls is verified;
//! the HMAC and the Base64 encoding are named, trusted functions.

use crate::decimal::dec_str;
use crate::decimal::u64_to_string;
use crate::order::lemma_str_le_antisym;
use crate::order::lemma_str_le_total;
use crate::order::lemma_str_le_trans;
use crate::order::str_cmp;
use crate::order::str_le;
use crate::order::KeyCmp;
use base64::prelude::Engine as _;
use base64::prelude::BASE64_STANDARD;
use hmac::KeyInit as _;
use hmac::Mac as _;
use vstd::multiset::Multiset;
use vstd::prelude::*;
use vstd::relations::sorted_by;
use vstd::relations::total_ordering;
use vstd::seq_lib::group_to_multiset_ensures;
use vstd::seq_lib::lemma_multiset_commutative;
use vstd::seq_lib::lemma_sorted_unique;
use vstd::utf8::encode_utf8;

verus! {

broadcast use group_to_multiset_ensures;

/// Order on query pairs: by key, then by value.
pub open spec fn pair_le(a: (Seq<char>, Seq<char>), b: (Seq<char>, Seq<char>)) -> bool {
    if a.0 == b.0 {
        str_le(a.1, b.1)
    } else {
        str_le(a.0, b.0)
    }
}

/// The pair order as a relation value.
pub open spec fn pair_leq_fn() -> spec_fn((Seq<char>, Seq<char>), (Seq<char>, Seq<char>)) -> bool {
    |a: (Seq<char>, Seq<char>), b: (Seq<char>, Seq<char>)| pair_le(a, b)
}

/// The pair order is a total order.
pub proof fn lemma_pair_le_total_ordering()
    ensures
        total_ordering(pair_leq_fn()),
{
    let leq = pair_leq_fn();
    assert forall|x: (Seq<char>, Seq<char>)| #[trigger] leq(x, x) by {
        lemma_str_le_total(x.1, x.1);
    }
    assert forall|x: (Seq<char>, Seq<char>), y: (Seq<char>, Seq<char>)|
        #[trigger] leq(x, y) && #[trigger] leq(y, x) implies x == y by {
        if x.0 == y.0 {
            lemma_str_le_antisym(x.1, y.1);
        } else {
            lemma_str_le_antisym(x.0, y.0);
        }
    }
    assert forall|x: (Seq<char>, Seq<char>), y: (Seq<char>, Seq<char>), z: (Seq<char>, Seq<char>)|
        #[trigger] leq(x, y) && #[trigger] leq(y, z) implies leq(x, z) by {
        if x.0 == y.0 && y.0 == z.0 {
            lemma_str_le_trans(x.1, y.1, z.1);
        } else if x.0 != y.0 && y.0 != z.0 {
            lemma_str_le_trans(x.0, y.0, z.0);
            if x.0 == z.0 {
                lemma_str_le_antisym(x.0, y.0);
            }
        }
    }
    assert forall|x: (Seq<char>, Seq<char>), y: (Seq<char>, Seq<char>)|
        #[trigger] leq(x, y) || #[trigger] leq(y, x) by {
        if x.0 == y.0 {
            lemma_str_le_total(x.1, y.1);
        } else {
            lemma_str_le_total(x.0, y.0);
        }
    }
}

/// Query pairs as sequences of characters.
pub open spec fn pairs_view(s: Seq<(String, String)>) -> Seq<(Seq<char>, Seq<char>)> {
    s.map_values(|p: (String, String)| (p.0@, p.1@))
}

/// The canonical order of a query: its pairs sorted by `(key, value)`.
pub open spec fn canonical_pairs(s: Seq<(Seq<char>, Seq<char>)>) -> Seq<(Seq<char>, Seq<char>)> {
    s.sort_by(pair_leq_fn())
}

fn pair_le_exec(a: &(String, String), b: &(String, String)) -> (r: bool)
    ensures
        r == pair_le((a.0@, a.1@), (b.0@, b.1@)),
{
    match str_cmp(a.0.as_str(), b.0.as_str()) {
        KeyCmp::Less => true,
        KeyCmp::Greater => {
            proof {
                if str_le(a.0@, b.0@) {
                    lemma_str_le_antisym(a.0@, b.0@);
                }
            }
            false
        },
        KeyCmp::Equal => {
            match str_cmp(a.1.as_str(), b.1.as_str()) {
                KeyCmp::Greater => {
                    proof {
                        if str_le(a.1@, b.1@) {
                            lemma_str_le_antisym(a.1@, b.1@);
                        }
                    }
                    false
                },
                KeyCmp::Less => true,
                KeyCmp::Equal => {
                    proof {
                        lemma_str_le_total(a.1@, b.1@);
                    }
                    true
                },
            }
        },
    }
}

/// Position where `x` belongs in a canonically ordered pair vector: the
/// first entry that is not strictly before it.
#[verifier::loop_isolation(false)]
fn find_insert_pos(out: &Vec<(String, String)>, x: &(String, String)) -> (k: usize)
    ensures
        k <= out@.len(),
        forall|j: int| 0 <= j < k ==> !pair_le((x.0@, x.1@), #[trigger] pairs_view(out@)[j]),
        k < out@.len() ==> pair_le((x.0@, x.1@), pairs_view(out@)[k as int]),
{
    let n = out.len();
    let mut k: usize = 0;
    while k < n
        invariant
            k <= n,
            n == out@.len(),
            forall|j: int| 0 <= j < k ==> !pair_le((x.0@, x.1@), #[trigger] pairs_view(out@)[j]),
        decreases n - k,
    {
        let le = pair_le_exec(x, &out[k]);
        proof {
            assert(pairs_view(out@)[k as int] == (out@[k as int].0@, out@[k as int].1@));
        }
        if le {
            return k;
        }
        k += 1;
    }
    k
}

/// Inserts `x` into a pair vector kept in canonical order.
#[verifier::loop_isolation(false)]
fn insert_pair_sorted(out: &mut Vec<(String, String)>, x: (String, String))
    requires
        sorted_by(pairs_view(old(out)@), pair_leq_fn()),
    ensures
        sorted_by(pairs_view(final(out)@), pair_leq_fn()),
        pairs_view(final(out)@).to_multiset() =~= pairs_view(old(out)@).to_multiset().insert(
            (x.0@, x.1@),
        ),
{
    proof {
        lemma_pair_le_total_ordering();
    }
    let ghost s = pairs_view(out@);
    let ghost xv = (x.0@, x.1@);
    let k = find_insert_pos(out, &x);
    let ghost kk = k as int;
    out.insert(k, x);
    proof {
        let leq = pair_leq_fn();
        let t = pairs_view(out@);
        assert(t =~= s.subrange(0, kk) + (seq![xv] + s.subrange(kk, s.len() as int)));
        assert(s =~= s.subrange(0, kk) + s.subrange(kk, s.len() as int));
        // Everything before the insertion point is at most `x` (the find
        // loop saw it was not past `x`; the order is total), everything
        // from it on is at least `x` (the entry at the point is, and the
        // rest follow by transitivity).
        assert forall|j: int| 0 <= j < kk implies #[trigger] leq(s[j], xv) by {
            assert(leq(s[j], xv) || leq(xv, s[j]));
            assert(!pair_le(xv, s[j]));
        }
        assert forall|j: int| kk <= j < s.len() implies #[trigger] leq(xv, s[j]) by {
            assert(pair_le(xv, s[kk]));
            assert(leq(xv, s[kk]));
            if j > kk {
                assert(leq(s[kk], s[j]));
                assert(leq(xv, s[kk]) && leq(s[kk], s[j]) ==> leq(xv, s[j]));
            }
        }
        assert forall|i: int, j: int|
            0 <= i < j < t.len() implies #[trigger] leq(t[i], t[j]) by {
            if j < kk {
                assert(leq(s[i], s[j]));
            } else if i < kk && j == kk {
                assert(t[i] == s[i]);
                assert(t[j] == xv);
            } else if i < kk && j > kk {
                assert(t[i] == s[i]);
                assert(t[j] == s[j - 1]);
                assert(leq(s[i], s[j - 1]) || i == j - 1);
            } else if i == kk {
                assert(t[i] == xv);
                assert(t[j] == s[j - 1]);
            } else {
                assert(t[i] == s[i - 1]);
                assert(t[j] == s[j - 1]);
                assert(leq(s[i - 1], s[j - 1]));
            }
        }
        // Contents: one copy of `x` was added, nothing else changed.
        lemma_multiset_commutative(s.subrange(0, kk), s.subrange(kk, s.len() as int));
        lemma_multiset_commutative(
            s.subrange(0, kk),
            seq![xv] + s.subrange(kk, s.len() as int),
        );
        lemma_multiset_commutative(seq![xv], s.subrange(kk, s.len() as int));
        assert(seq![xv] =~= Seq::<(Seq<char>, Seq<char>)>::empty().push(xv));
        assert(Seq::<(Seq<char>, Seq<char>)>::empty().push(xv).to_multiset() =~= Multiset::<
            (Seq<char>, Seq<char>),
        >::empty().insert(xv));
        assert(t.to_multiset() =~= s.to_multiset().insert(xv));
    }
}

/// Sorts query pairs into canonical order.
#[verifier::loop_isolation(false)]
fn sort_query_pairs(v: Vec<(String, String)>) -> (r: Vec<(String, String)>)
    ensures
        pairs_view(r@) == canonical_pairs(pairs_view(v@)),
{
    proof {
        lemma_pair_le_total_ordering();
    }
    let ghost orig = pairs_view(v@);
    let mut v = v;
    let mut out: Vec<(String, String)> = Vec::new();
    while v.len() > 0
        invariant
            sorted_by(pairs_view(out@), pair_leq_fn()),
            pairs_view(out@).to_multiset().add(pairs_view(v@).to_multiset()) =~= orig.to_multiset(),
        decreases v.len(),
    {
        let ghost pre = pairs_view(v@);
        let x = match v.pop() {
            Some(x) => x,
            None => {
                proof {
                    assert(false);
                }
                return out;
            },
        };
        proof {
            assert(pairs_view(v@) =~= pre.drop_last());
            assert(pre.drop_last() =~= pre.remove(pre.len() - 1));
            assert(pre[pre.len() - 1] == (x.0@, x.1@));
        }
        insert_pair_sorted(&mut out, x);
    }
    proof {
        assert(pairs_view(v@).to_multiset() =~= Multiset::<(Seq<char>, Seq<char>)>::empty());
        assert(pairs_view(out@).to_multiset() =~= orig.to_multiset());
        orig.lemma_sort_by_ensures(pair_leq_fn());
        lemma_sorted_unique(pairs_view(out@), canonical_pairs(orig), pair_leq_fn());
    }
    out
}

/// Serialized form of a query, as application/x-www-form-urlencoded.
pub uninterp spec fn urlencoded_of(pairs: Seq<(Seq<char>, Seq<char>)>) -> Seq<char>;

/// Relies on form_urlencoded's Serializer: percent-encodes each pair,
/// joins key and value with '=' and pairs with '&'; the result depends on
/// the pairs alone.
#[verifier::external_body]
fn encode_pairs(pairs: &Vec<(String, String)>) -> (r: String)
    ensures
        r@ == urlencoded_of(pairs_view(pairs@)),
{
    let mut ser = form_urlencoded::Serializer::for_suffix(String::new(), 0);
    ser.extend_pairs(pairs.iter());
    ser.finish()
}

/// The canonical parameter string: the query with `signTimestamp`
/// appended, sorted, and URL-encoded.
pub open spec fn spec_timestamped_sorted_params(
    query: Seq<(Seq<char>, Seq<char>)>,
    timestamp: Seq<char>,
) -> Seq<char> {
    urlencoded_of(canonical_pairs(query.push(("signTimestamp"@, timestamp))))
}

/// Appends the timestamp pair, sorts, and serializes the query.
pub fn timestamped_sorted_params(query: Vec<(String, String)>, timestamp: &str) -> (r: String)
    ensures
        r@ == spec_timestamped_sorted_params(pairs_view(query@), timestamp@),
{
    let ghost q0 = pairs_view(query@);
    let mut q = query;
    q.push(("signTimestamp".to_owned(), timestamp.to_owned()));
    proof {
        assert(pairs_view(q@) =~= q0.push(("signTimestamp"@, timestamp@)));
    }
    let sorted = sort_query_pairs(q);
    encode_pairs(&sorted)
}

/// An HMAC-SHA256 authentication tag; the tag depends on key and message
/// alone.
pub uninterp spec fn hmac_sha256_of(key: Seq<u8>, msg: Seq<u8>) -> Seq<u8>;

/// The standard Base64 encoding, with padding, of a byte string.
pub uninterp spec fn base64_of(data: Seq<u8>) -> Seq<char>;

/// Relies on hmac's `Hmac<Sha256>`: computes the HMAC-SHA256 tag of `msg`
/// under `key`. HMAC accepts keys of any length, so construction cannot
/// fail.
#[verifier::external_body]
fn hmac_sha256(key: &[u8], msg: &[u8]) -> (r: Vec<u8>)
    ensures
        r@ == hmac_sha256_of(key@, msg@),
{
    let mut mac = hmac::Hmac::<sha2::Sha256>::new_from_slice(key).expect(
        "HMAC can take key of any size",
    );
    mac.update(msg);
    mac.finalize().into_bytes().to_vec()
}

/// Relies on base64's standard engine: encodes with the canonical
/// alphabet and padding.
#[verifier::external_body]
fn base64_standard(data: &[u8]) -> (r: String)
    ensures
        r@ == base64_of(data@),
{
    BASE64_STANDARD.encode(data)
}

/// Signs `payload` with `secret_key`: Base64 of the HMAC-SHA256 tag.
pub fn sign_payload(payload: &str, secret_key: &str) -> (r: String)
    ensures
        r@ == base64_of(hmac_sha256_of(encode_utf8(secret_key@), encode_utf8(payload@))),
{
    let mac = hmac_sha256(secret_key.as_bytes(), payload.as_bytes());
    base64_standard(mac.as_slice())
}

/// The exact byte string that is signed: method, path and canonical
/// parameters, joined by newlines.
pub open spec fn spec_canonical_payload(
    method: Seq<char>,
    path: Seq<char>,
    query: Seq<(Seq<char>, Seq<char>)>,
    timestamp_ms: u64,
) -> Seq<char> {
    method + "\n"@ + path + "\n"@ + spec_timestamped_sorted_params(
        query,
        dec_str(timestamp_ms as int),
    )
}

/// The signature `apply` attaches: a function of secret key, method,
/// path, query and timestamp, and of nothing else.
pub open spec fn spec_signature(
    secret: Seq<char>,
    method: Seq<char>,
    path: Seq<char>,
    query: Seq<(Seq<char>, Seq<char>)>,
    timestamp_ms: u64,
) -> Seq<char> {
    base64_of(
        hmac_sha256_of(
            encode_utf8(secret),
            encode_utf8(spec_canonical_payload(method, path, query, timestamp_ms)),
        ),
    )
}

/// How an outgoing request is authenticated.
pub enum AuthMethod {
    HmacSha256 { api_key: String, secret_key: String },
}

/// The three headers a signed request carries.
#[derive(Debug)]
pub struct SignedHeaders {
    pub key: String,
    pub signature: String,
    pub sign_timestamp: String,
}

/// Why signing was refused.
#[derive(Debug, Clone)]
pub enum AuthError {
    UnsupportedMethod { method: String },
}

impl AuthMethod {
    pub closed spec fn api_key_view(&self) -> Seq<char> {
        match self {
            AuthMethod::HmacSha256 { api_key, .. } => api_key@,
        }
    }

    pub closed spec fn secret_key_view(&self) -> Seq<char> {
        match self {
            AuthMethod::HmacSha256 { secret_key, .. } => secret_key@,
        }
    }

    /// Computes the authentication headers for one request. Only GET is
    /// implemented for the HMAC-SHA256 strategy: any other method is
    /// refused outright rather than sent unsigned. The signature is a
    /// function of method, path, query, secret key and timestamp alone,
    /// so a fixed timestamp gives a reproducible signature.
    pub fn apply(&self, method: &str, path: &str, query: Vec<(String, String)>, timestamp_ms: u64)
        -> (r: Result<SignedHeaders, AuthError>)
        ensures
            r is Ok <==> method@ == "GET"@,
            r matches Ok(h) ==> h.key@ == self.api_key_view() && h.sign_timestamp@ == dec_str(
                timestamp_ms as int,
            ) && h.signature@ == spec_signature(
                self.secret_key_view(),
                method@,
                path@,
                pairs_view(query@),
                timestamp_ms,
            ),
            r matches Err(e) ==> method@ != "GET"@ && match e {
                AuthError::UnsupportedMethod { method: m } => m@ == method@,
            },
    {
        match self {
            AuthMethod::HmacSha256 { api_key, secret_key } => {
                match str_cmp(method, "GET") {
                    KeyCmp::Equal => {},
                    _ => {
                        return Err(AuthError::UnsupportedMethod { method: method.to_owned() });
                    },
                }
                let timestamp = u64_to_string(timestamp_ms);
                let params = timestamped_sorted_params(query, timestamp.as_str());
                let mut payload = method.to_owned();
                payload.append("\n");
                payload.append(path);
                payload.append("\n");
                payload.append(params.as_str());
                let signature = sign_payload(payload.as_str(), secret_key.as_str());
                Ok(
                    SignedHeaders {
                        key: api_key.clone(),
                        signature,
                        sign_timestamp: timestamp,
                    },
                )
            },
        }
    }
}

/// Signing is deterministic: any two header sets whose signatures were
/// computed from the same method, path, query, secret key and timestamp
/// carry the same signature.
pub proof fn lemma_signature_deterministic(
    h1: SignedHeaders,
    h2: SignedHeaders,
    secret: Seq<char>,
    method: Seq<char>,
    path: Seq<char>,
    query: Seq<(Seq<char>, Seq<char>)>,
    timestamp_ms: u64,
)
    requires
        h1.signature@ == spec_signature(secret, method, path, query, timestamp_ms),
        h2.signature@ == spec_signature(secret, method, path, query, timestamp_ms),
    ensures
        h1.signature@ == h2.signature@,
{
}

} // verus!
