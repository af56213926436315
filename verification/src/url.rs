//! Incremental construction of request URLs against a shared base URL.
//!
//! A [`UrlBuilder`] starts by borrowing the base URL and clones it at most
//! once, on the first mutation; consuming a finished builder twice is an
//! error, not a panic. The builder records the operations applied to it —
//! path joins, path segments, query pairs — and each operation's effect on
//! the held URL is a named result of the url crate ([`spec_join`],
//! [`spec_with_segments`], [`spec_with_pair`]): the contracts pin the held
//! URL as the fold of the recorded operations over the base, so a builder
//! cannot claim an operation it did not apply.
//!
//! [`BuildUrl`] is the capability a request type implements to resolve
//! itself to a URL given a context value.

use crate::decimal::dec_str;
use crate::decimal::u64_to_string;
use vstd::prelude::*;

verus! {

#[verifier::external_type_specification]
#[verifier::external_body]
pub struct ExUrl(url::Url);

/// What RFC 3986 relative resolution of `path` against `u` yields: the
/// resolved URL, or nothing when the reference is malformed. A function
/// of the two arguments alone.
pub uninterp spec fn spec_join(u: url::Url, path: Seq<char>) -> Option<url::Url>;

/// `u` with each segment appended to its path, percent-encoded, in
/// order; nothing when `u` cannot have hierarchical segments. A function
/// of the two arguments alone.
pub uninterp spec fn spec_with_segments(u: url::Url, segments: Seq<Seq<char>>) -> Option<url::Url>;

/// `u` with one `key=value` pair appended to its query,
/// percent-encoded. A function of the three arguments alone.
pub uninterp spec fn spec_with_pair(u: url::Url, key: Seq<char>, value: Seq<char>) -> url::Url;

/// The path of `u`, without scheme, host or query.
pub uninterp spec fn spec_url_path(u: url::Url) -> Seq<char>;

/// The query pairs of `u`, percent-decoded, in order.
pub uninterp spec fn spec_url_query_pairs(u: url::Url) -> Seq<(Seq<char>, Seq<char>)>;

/// Relies on Url's derived `Clone`: the clone equals the original.
#[verifier::external_body]
fn url_clone(u: &url::Url) -> (r: url::Url)
    ensures
        r == *u,
{
    u.clone()
}

/// Relies on Url::join: RFC 3986 relative resolution against `u`,
/// failing exactly on a malformed relative reference, which is reported
/// as text. The outcome depends on `u` and `path` alone.
#[verifier::external_body]
fn url_join(u: &url::Url, path: &str) -> (r: Result<url::Url, String>)
    ensures
        match r {
            Ok(joined) => spec_join(*u, path@) == Some(joined),
            Err(_) => spec_join(*u, path@) is None,
        },
{
    match u.join(path) {
        Ok(joined) => Ok(joined),
        Err(e) => Err(format!("{e}")),
    }
}

/// Relies on Url::path_segments_mut: appends each segment,
/// percent-encoded, to the URL's path; false, leaving the URL untouched,
/// exactly when the URL cannot have hierarchical segments — a property
/// of the URL alone.
#[verifier::external_body]
fn url_extend_segments(u: &mut url::Url, segments: &[&str]) -> (r: bool)
    ensures
        match spec_with_segments(*old(u), segments@.map_values(|s: &str| s@)) {
            Some(extended) => r == true && *final(u) == extended,
            None => r == false && *final(u) == *old(u),
        },
{
    match u.path_segments_mut() {
        Ok(mut path) => {
            path.extend(segments);
            true
        },
        Err(()) => false,
    }
}

/// Relies on Url::query_pairs_mut: appends one `key=value` pair,
/// percent-encoded, to the URL's query.
#[verifier::external_body]
fn url_append_pair(u: &mut url::Url, key: &str, value: &str)
    ensures
        *final(u) == spec_with_pair(*old(u), key@, value@),
{
    u.query_pairs_mut().append_pair(key, value);
}

/// Relies on Url::query_pairs: the URL's query pairs, percent-decoded.
#[verifier::external_body]
pub(crate) fn url_query_pairs(u: &url::Url) -> (r: Vec<(String, String)>)
    ensures
        crate::auth::pairs_view(r@) == spec_url_query_pairs(*u),
{
    u.query_pairs().map(|(k, v)| (k.into_owned(), v.into_owned())).collect()
}

/// Relies on Url::path: the URL's path, without scheme, host or query.
#[verifier::external_body]
pub(crate) fn url_path(u: &url::Url) -> (r: String)
    ensures
        r@ == spec_url_path(*u),
{
    u.path().to_string()
}

/// One operation recorded by a [`UrlBuilder`].
pub enum UrlOp {
    /// RFC 3986 relative resolution of this path.
    Join(Seq<char>),
    /// These segments appended to the path.
    Segments(Seq<Seq<char>>),
    /// This pair appended to the query.
    Pair(Seq<char>, Seq<char>),
}

/// The URL one operation turns `u` into, or nothing when it fails.
pub open spec fn apply_op(u: url::Url, op: UrlOp) -> Option<url::Url> {
    match op {
        UrlOp::Join(path) => spec_join(u, path),
        UrlOp::Segments(segments) => spec_with_segments(u, segments),
        UrlOp::Pair(key, value) => Some(spec_with_pair(u, key, value)),
    }
}

/// The URL a sequence of operations builds from `u`: each applied in
/// order, or nothing from the first that fails.
pub open spec fn apply_ops(u: url::Url, ops: Seq<UrlOp>) -> Option<url::Url>
    decreases ops.len(),
{
    if ops.len() == 0 {
        Some(u)
    } else {
        match apply_op(u, ops[0]) {
            Some(next) => apply_ops(next, ops.drop_first()),
            None => None,
        }
    }
}

/// Appending one operation to a fold applies it to the fold's result.
pub proof fn lemma_apply_ops_snoc(u: url::Url, ops: Seq<UrlOp>, op: UrlOp)
    ensures
        apply_ops(u, ops.push(op)) == (match apply_ops(u, ops) {
            Some(mid) => apply_op(mid, op),
            None => None::<url::Url>,
        }),
    decreases ops.len(),
{
    reveal_with_fuel(apply_ops, 3);
    if ops.len() == 0 {
        assert(ops.push(op)[0] == op);
        assert(ops.push(op).drop_first() =~= Seq::<UrlOp>::empty());
    } else {
        assert(ops.push(op)[0] == ops[0]);
        assert(ops.push(op).drop_first() =~= ops.drop_first().push(op));
        match apply_op(u, ops[0]) {
            Some(next) => {
                lemma_apply_ops_snoc(next, ops.drop_first(), op);
            },
            None => {
            },
        }
    }
}

/// Why building a URL failed.
#[derive(Debug, Clone)]
pub enum UrlBuildError {
    /// A relative path did not resolve against the base URL.
    Join { detail: String },
    /// The URL cannot have hierarchical path segments.
    CannotBeABase,
    /// The builder was used after being consumed.
    InvalidState,
    /// A request asked for an interval the context has no spelling for.
    UnsupportedInterval,
}

enum UrlSlot<'a> {
    Owned(url::Url),
    Shared(&'a url::Url),
    Invalid,
}

/// Builds one request URL. Starts out sharing the base URL; the first
/// mutation clones it, so each build clones the base at most once. While
/// the builder is valid, the URL it holds is exactly the fold of its
/// recorded operations over the base ([`UrlBuilder::wf`]).
pub struct UrlBuilder<'a> {
    res: UrlSlot<'a>,
    base: Ghost<url::Url>,
    ops: Ghost<Seq<UrlOp>>,
}

impl<'a> UrlBuilder<'a> {
    pub closed spec fn is_owned(&self) -> bool {
        self.res is Owned
    }

    pub closed spec fn is_shared(&self) -> bool {
        self.res is Shared
    }

    pub closed spec fn is_invalid(&self) -> bool {
        self.res is Invalid
    }

    /// The builder still holds a URL to work on.
    pub open spec fn is_valid(&self) -> bool {
        self.is_owned() || self.is_shared()
    }

    /// The URL currently held, if the builder was not consumed.
    pub closed spec fn current(&self) -> Option<url::Url> {
        match self.res {
            UrlSlot::Owned(u) => Some(u),
            UrlSlot::Shared(u) => Some(*u),
            UrlSlot::Invalid => None,
        }
    }

    /// The base URL the builder started from.
    pub closed spec fn base(&self) -> url::Url {
        self.base@
    }

    /// The operations recorded so far.
    pub closed spec fn ops(&self) -> Seq<UrlOp> {
        self.ops@
    }

    /// A valid builder holds exactly the fold of its operations over the
    /// base: the record cannot drift from the URL.
    pub open spec fn wf(&self) -> bool {
        self.is_valid() ==> (self.current() matches Some(cur) && apply_ops(self.base(), self.ops())
            == Some(cur))
    }

    /// A fresh builder sharing `base_url`, with nothing recorded.
    pub fn new(base_url: &'a url::Url) -> (r: UrlBuilder<'a>)
        ensures
            r.is_shared(),
            r.ops() == Seq::<UrlOp>::empty(),
            r.base() == *base_url,
            r.current() == Some(*base_url),
            r.wf(),
    {
        let r = UrlBuilder {
            res: UrlSlot::Shared(base_url),
            base: Ghost(*base_url),
            ops: Ghost(Seq::empty()),
        };
        proof {
            assert(apply_ops(*base_url, Seq::<UrlOp>::empty()) == Some(*base_url));
        }
        r
    }

    /// Resolves a relative path against the held URL, which becomes
    /// `spec_join` of the old one; a malformed reference leaves the
    /// builder as it was.
    pub fn join_path(&mut self, path: &str) -> (r: Result<(), UrlBuildError>)
        ensures
            final(self).base() == old(self).base(),
            old(self).wf() ==> final(self).wf(),
            old(self).is_invalid() ==> (r matches Err(UrlBuildError::InvalidState)) && *final(self)
                == *old(self),
            r is Ok ==> old(self).is_valid(),
            r is Ok ==> (old(self).current() matches Some(cur) && spec_join(cur, path@) matches Some(
                joined,
            ) && final(self).current() == Some(joined) && final(self).is_owned()
                && final(self).ops() == old(self).ops().push(UrlOp::Join(path@))),
            old(self).is_valid() && r is Err ==> ((r matches Err(UrlBuildError::Join { .. })) && (
            old(self).current() matches Some(cur) && spec_join(cur, path@) is None) && *final(self)
                == *old(self)),
    {
        let joined = match &self.res {
            UrlSlot::Shared(u) => url_join(u, path),
            UrlSlot::Owned(u) => url_join(u, path),
            UrlSlot::Invalid => {
                return Err(UrlBuildError::InvalidState);
            },
        };
        match joined {
            Ok(u) => {
                self.res = UrlSlot::Owned(u);
                proof {
                    lemma_apply_ops_snoc(self.base@, self.ops@, UrlOp::Join(path@));
                    self.ops@ = self.ops@.push(UrlOp::Join(path@));
                }
                Ok(())
            },
            Err(detail) => Err(UrlBuildError::Join { detail }),
        }
    }

    /// Appends path segments: the held URL becomes `spec_with_segments`
    /// of the old one. A URL that cannot have hierarchical segments
    /// leaves the builder consumed, and later operations error.
    pub fn add_path_segments(&mut self, segments: &[&str]) -> (r: Result<(), UrlBuildError>)
        ensures
            final(self).base() == old(self).base(),
            old(self).wf() ==> final(self).wf(),
            old(self).is_invalid() ==> (r matches Err(UrlBuildError::InvalidState)) && *final(self)
                == *old(self),
            r is Ok ==> old(self).is_valid(),
            r is Ok ==> (old(self).current() matches Some(cur) && spec_with_segments(
                cur,
                segments@.map_values(|s: &str| s@),
            ) matches Some(extended) && final(self).current() == Some(extended)
                && final(self).is_owned() && final(self).ops() == old(self).ops().push(
                UrlOp::Segments(segments@.map_values(|s: &str| s@)),
            )),
            old(self).is_valid() && r is Err ==> ((r matches Err(UrlBuildError::CannotBeABase)) && (
            old(self).current() matches Some(cur) && spec_with_segments(
                cur,
                segments@.map_values(|s: &str| s@),
            ) is None) && final(self).is_invalid() && final(self).ops() == old(self).ops()),
    {
        let mut slot = UrlSlot::Invalid;
        core::mem::swap(&mut slot, &mut self.res);
        let mut url = match slot {
            UrlSlot::Shared(u) => url_clone(u),
            UrlSlot::Owned(u) => u,
            UrlSlot::Invalid => {
                return Err(UrlBuildError::InvalidState);
            },
        };
        if url_extend_segments(&mut url, segments) {
            self.res = UrlSlot::Owned(url);
            proof {
                lemma_apply_ops_snoc(
                    self.base@,
                    self.ops@,
                    UrlOp::Segments(segments@.map_values(|s: &str| s@)),
                );
                self.ops@ = self.ops@.push(
                    UrlOp::Segments(segments@.map_values(|s: &str| s@)),
                );
            }
            Ok(())
        } else {
            Err(UrlBuildError::CannotBeABase)
        }
    }

    /// Appends one pre-rendered query pair: the held URL becomes
    /// `spec_with_pair` of the old one.
    pub fn add_query_pair(&mut self, key: &str, value: &str) -> (r: Result<(), UrlBuildError>)
        ensures
            final(self).base() == old(self).base(),
            old(self).wf() ==> final(self).wf(),
            r is Ok <==> old(self).is_valid(),
            r is Ok ==> (old(self).current() matches Some(cur) && final(self).current() == Some(
                spec_with_pair(cur, key@, value@),
            ) && final(self).is_owned() && final(self).ops() == old(self).ops().push(
                UrlOp::Pair(key@, value@),
            )),
            r is Err ==> *final(self) == *old(self) && (r matches Err(UrlBuildError::InvalidState))
                && old(self).is_invalid(),
    {
        let mut slot = UrlSlot::Invalid;
        core::mem::swap(&mut slot, &mut self.res);
        let mut url = match slot {
            UrlSlot::Shared(u) => url_clone(u),
            UrlSlot::Owned(u) => u,
            UrlSlot::Invalid => {
                return Err(UrlBuildError::InvalidState);
            },
        };
        url_append_pair(&mut url, key, value);
        self.res = UrlSlot::Owned(url);
        proof {
            lemma_apply_ops_snoc(self.base@, self.ops@, UrlOp::Pair(key@, value@));
            self.ops@ = self.ops@.push(UrlOp::Pair(key@, value@));
        }
        Ok(())
    }

    /// Appends one query pair whose value is rendered in base 10, without
    /// allocating the caller a formatter.
    pub fn display_pair(&mut self, key: &str, value: u64) -> (r: Result<(), UrlBuildError>)
        ensures
            final(self).base() == old(self).base(),
            old(self).wf() ==> final(self).wf(),
            r is Ok <==> old(self).is_valid(),
            r is Ok ==> (old(self).current() matches Some(cur) && final(self).current() == Some(
                spec_with_pair(cur, key@, dec_str(value as int)),
            ) && final(self).is_owned() && final(self).ops() == old(self).ops().push(
                UrlOp::Pair(key@, dec_str(value as int)),
            )),
            r is Err ==> *final(self) == *old(self) && (r matches Err(UrlBuildError::InvalidState))
                && old(self).is_invalid(),
    {
        let rendered = u64_to_string(value);
        self.add_query_pair(key, rendered.as_str())
    }

    /// Hands out the URL that was built — the one the builder held — and
    /// leaves the builder consumed: a second take fails with an
    /// invalid-state error, never a panic.
    pub fn take(&mut self) -> (r: Result<url::Url, UrlBuildError>)
        ensures
            r is Ok <==> old(self).is_valid(),
            r matches Ok(u) ==> old(self).current() == Some(u),
            final(self).is_invalid(),
            final(self).ops() == old(self).ops(),
            final(self).base() == old(self).base(),
            r is Err ==> (r matches Err(UrlBuildError::InvalidState)) && old(self).is_invalid(),
    {
        let mut slot = UrlSlot::Invalid;
        core::mem::swap(&mut slot, &mut self.res);
        match slot {
            UrlSlot::Shared(u) => Ok(url_clone(u)),
            UrlSlot::Owned(u) => Ok(u),
            UrlSlot::Invalid => Err(UrlBuildError::InvalidState),
        }
    }
}

/// A value that can resolve itself to a URL against a context.
///
/// `spec_ops` says which operations the value records on a builder:
/// `None` when the context cannot resolve it (and building must fail),
/// `Some(ops)` when resolution appends exactly `ops` — so the URL built
/// from a base is pinned to `apply_ops` of those operations.
pub trait BuildUrl<C> {
    /// What the context must provide before building.
    spec fn build_req(&self, context: &C) -> bool;

    /// The operations this value records, or `None` when it cannot be
    /// resolved.
    spec fn spec_ops(&self, context: &C) -> Option<Seq<UrlOp>>;

    fn build_url(&self, url_builder: &mut UrlBuilder<'_>, context: &C) -> (r: Result<
        (),
        UrlBuildError,
    >)
        requires
            self.build_req(context),
            old(url_builder).wf(),
            old(url_builder).is_valid(),
        ensures
            final(url_builder).wf(),
            final(url_builder).base() == old(url_builder).base(),
            r is Ok ==> (self.spec_ops(context) matches Some(ops) && final(url_builder).ops()
                == old(url_builder).ops() + ops && final(url_builder).is_valid()),
            self.spec_ops(context) is None ==> r is Err,
            r is Err ==> self.spec_ops(context) is None || (self.spec_ops(context) matches Some(
                ops,
            ) && old(url_builder).current() matches Some(cur) && apply_ops(cur, ops) is None),
    ;
}

/// A plain path joins itself onto the base URL.
impl<C> BuildUrl<C> for str {
    open spec fn build_req(&self, context: &C) -> bool {
        true
    }

    open spec fn spec_ops(&self, context: &C) -> Option<Seq<UrlOp>> {
        Some(seq![UrlOp::Join(self@)])
    }

    fn build_url(&self, url_builder: &mut UrlBuilder<'_>, _context: &C) -> (r: Result<
        (),
        UrlBuildError,
    >) {
        let r = url_builder.join_path(self);
        proof {
            let ops = seq![UrlOp::Join(self@)];
            if r is Ok {
                assert(url_builder.ops() =~= old(url_builder).ops() + ops);
            } else {
                let cur = old(url_builder).current()->Some_0;
                assert(apply_op(cur, ops[0]) is None);
                assert(apply_ops(cur, ops) is None);
            }
        }
        r
    }
}

/// A list of path segments appends itself to the base URL's path.
impl<C> BuildUrl<C> for [&str] {
    open spec fn build_req(&self, context: &C) -> bool {
        true
    }

    open spec fn spec_ops(&self, context: &C) -> Option<Seq<UrlOp>> {
        Some(seq![UrlOp::Segments(self@.map_values(|s: &str| s@))])
    }

    fn build_url(&self, url_builder: &mut UrlBuilder<'_>, _context: &C) -> (r: Result<
        (),
        UrlBuildError,
    >) {
        let r = url_builder.add_path_segments(self);
        proof {
            let ops = seq![UrlOp::Segments(self@.map_values(|s: &str| s@))];
            if r is Ok {
                assert(url_builder.ops() =~= old(url_builder).ops() + ops);
            } else {
                let cur = old(url_builder).current()->Some_0;
                assert(apply_op(cur, ops[0]) is None);
                assert(apply_ops(cur, ops) is None);
            }
        }
        r
    }
}

/// Resolves `build` against `base_url`: a fresh builder, the value's own
/// operations, then the finished URL — which is exactly the fold of those
/// operations over the base. The base URL is cloned at most once, and
/// only if a mutation needed it.
pub fn build_url_with<'a, C, B: BuildUrl<C> + ?Sized>(
    base_url: &'a url::Url,
    build: &B,
    context: &C,
) -> (r: Result<url::Url, UrlBuildError>)
    requires
        build.build_req(context),
    ensures
        r matches Ok(u) ==> (build.spec_ops(context) matches Some(ops) && apply_ops(*base_url, ops)
            == Some(u)),
        r is Err ==> build.spec_ops(context) is None || (build.spec_ops(context) matches Some(ops)
            && apply_ops(*base_url, ops) is None),
{
    let mut builder = UrlBuilder::new(base_url);
    match build.build_url(&mut builder, context) {
        Ok(_) => {},
        Err(e) => {
            return Err(e);
        },
    }
    proof {
        let ops = build.spec_ops(context)->Some_0;
        assert(Seq::<UrlOp>::empty() + ops =~= ops);
    }
    match builder.take() {
        Ok(u) => Ok(u),
        Err(e) => {
            proof {
                assert(false);
            }
            Err(e)
        },
    }
}

} // verus!
