//! The feature database and the queries made of it.
//!
//! Both tables are lists of `(key, record)` pairs. A key names at most one
//! record: where a list repeats a key, its first pair is the one that counts.

use vstd::prelude::*;

use crate::text::{contains_seq, contains_str, lower_of, lowercase};
use crate::models::{date_key, recency_order, release_date_of, CompilerVersionData, FeatureData};

verus! {

/// The most versions a preview shows.
pub const PREVIEW_LEN: usize = 10;

/// The caniuse features.
#[derive(Clone, Debug, Default)]
pub struct Db {
    /// Where the database was fetched from.
    pub base_url: String,
    /// Compiler versions, keyed by version number.
    pub versions: Vec<(String, CompilerVersionData)>,
    /// Features, keyed by slug.
    pub features: Vec<(String, FeatureData)>,
}

/// Pair `i` of `entries` is the first whose key is `key`.
pub open spec fn is_first_key<T>(entries: Seq<(String, T)>, key: Seq<char>, i: int) -> bool {
    0 <= i < entries.len() && entries[i].0@ == key && forall|j: int|
        0 <= j < i ==> entries[j].0@ != key
}

/// The record stored under `key`, if any.
pub open spec fn record_for<T>(entries: Seq<(String, T)>, key: Seq<char>) -> Option<T> {
    if exists|i: int| is_first_key(entries, key, i) {
        Some(entries[choose|i: int| is_first_key(entries, key, i)].1)
    } else {
        None
    }
}

/// The records of the first `n` pairs of a table, in order, without their
/// keys, leaving out each pair whose key an earlier pair already holds.
pub open spec fn records<T>(entries: Seq<(String, T)>, n: nat) -> Seq<T>
    decreases n,
{
    if n == 0 {
        Seq::empty()
    } else if is_first_key(entries, entries[n - 1].0@, n - 1) {
        records(entries, (n - 1) as nat).push(entries[n - 1].1)
    } else {
        records(entries, (n - 1) as nat)
    }
}

/// Finds the first pair whose key is `key`.
fn find_key<T>(entries: &Vec<(String, T)>, key: &str) -> (r: Option<usize>)
    ensures
        r matches Some(i) ==> is_first_key(entries@, key@, i as int),
        r is None ==> forall|i: int| 0 <= i < entries@.len() ==> entries@[i].0@ != key@,
        r is Some <==> exists|i: int| is_first_key(entries@, key@, i),
{
    let mut i: usize = 0;
    while i < entries.len()
        invariant
            i <= entries@.len(),
            forall|j: int| 0 <= j < i ==> entries@[j].0@ != key@,
        decreases entries@.len() - i,
    {
        if crate::text::str_eq(entries[i].0.as_str(), key) {
            assert(is_first_key(entries@, key@, i as int));
            return Some(i);
        }
        i = i + 1;
    }
    None
}

/// The first key is the only first key.
proof fn lemma_first_key_unique<T>(entries: Seq<(String, T)>, key: Seq<char>, i: int)
    requires
        is_first_key(entries, key, i),
    ensures
        record_for(entries, key) == Some(entries[i].1),
{
    let c = choose|c: int| is_first_key(entries, key, c);
    assert(is_first_key(entries, key, c));
    if c < i {
        assert(entries[c].0@ != key);
    } else if c > i {
        assert(entries[i].0@ != key);
    }
}

/// The number a version's release date gives its rank among versions of
/// one channel; versions with no readable date rank below all others.
pub open spec fn dated(v: CompilerVersionData) -> int {
    if release_date_of(v) is Some {
        1
    } else {
        0
    }
}

/// The calendar key of a version's readable release date, or zero.
pub open spec fn date_rank(v: CompilerVersionData) -> int {
    match release_date_of(v) {
        Some(d) => date_key(d),
        None => 0,
    }
}

/// `a` is at least as recent as `b`: a higher channel, else a readable date
/// where `b` has none, else a date no earlier.
pub open spec fn at_least_as_recent(a: CompilerVersionData, b: CompilerVersionData) -> bool {
    let (ra, rb) = (a.channel.spec_rank(), b.channel.spec_rank());
    ra > rb || (ra == rb && (dated(a) > dated(b) || (dated(a) == dated(b) && date_rank(a)
        >= date_rank(b))))
}

/// Decides [`at_least_as_recent`].
fn recent_ge(a: &CompilerVersionData, b: &CompilerVersionData) -> (r: bool)
    ensures
        r == at_least_as_recent(*a, *b),
{
    let ra = a.channel.rank();
    let rb = b.channel.rank();
    if ra != rb {
        return ra > rb;
    }
    match (a.release_date(), b.release_date()) {
        (Some(x), Some(y)) => !matches!(x.compare(&y), core::cmp::Ordering::Less),
        (Some(_), None) => true,
        (None, Some(_)) => false,
        (None, None) => true,
    }
}

/// The records that a list of references points at.
pub open spec fn values_of(refs: Seq<&CompilerVersionData>) -> Seq<CompilerVersionData> {
    refs.map_values(|v: &CompilerVersionData| *v)
}

/// `shown` lists versions from most to least recent, and `rest` holds what
/// was left out, none of it more recent than anything shown.
pub open spec fn ranked_preview(shown: Seq<CompilerVersionData>, rest: Seq<CompilerVersionData>) -> bool {
    &&& forall|i: int, j: int|
        0 <= i < j < shown.len() ==> at_least_as_recent(shown[i], shown[j])
    &&& forall|i: int, k: int|
        0 <= i < shown.len() && 0 <= k < rest.len() ==> at_least_as_recent(shown[i], rest[k])
}

/// Finds the position of a most recent version in a non-empty pool.
fn most_recent(pool: &Vec<&CompilerVersionData>) -> (r: usize)
    requires
        pool@.len() > 0,
    ensures
        r < pool@.len(),
        forall|k: int|
            0 <= k < pool@.len() ==> at_least_as_recent(*pool@[r as int], *pool@[k]),
{
    let mut best: usize = 0;
    let mut k: usize = 1;
    while k < pool.len()
        invariant
            1 <= k <= pool@.len(),
            best < k,
            forall|j: int| 0 <= j < k ==> at_least_as_recent(*pool@[best as int], *pool@[j]),
        decreases pool@.len() - k,
    {
        if !recent_ge(pool[best], pool[k]) {
            best = k;
        }
        k = k + 1;
    }
    best
}

/// `text`, in lower case, holds `query`.
pub open spec fn text_hit(text: Seq<char>, query: Seq<char>) -> bool {
    contains_seq(lower_of(text), query)
}

/// The slug, the flag or the title of `f` holds `query`.
pub open spec fn names_hit(f: FeatureData, query: Seq<char>) -> bool {
    text_hit(f.slug@, query) || (f.flag matches Some(flag) && text_hit(flag@, query)) || text_hit(
        f.title@,
        query,
    )
}

/// How many of `texts` hold `query`.
pub open spec fn count_hits(texts: Seq<String>, query: Seq<char>) -> nat
    decreases texts.len(),
{
    if texts.len() == 0 {
        0
    } else {
        count_hits(texts.drop_last(), query) + if text_hit(texts.last()@, query) {
            1nat
        } else {
            0nat
        }
    }
}

/// How many times a query lists `f`: once where a name of it matches;
/// otherwise once for each matching item, once for each matching alias, and
/// once more where it is `near` the query.
pub open spec fn times_listed(f: FeatureData, query: Seq<char>, near: bool) -> nat {
    if names_hit(f, query) {
        1
    } else {
        count_hits(f.items@, query) + count_hits(f.aliases@, query) + if near {
            1nat
        } else {
            0nat
        }
    }
}

/// Entry `i` of `near`, or `false` past its end.
pub open spec fn near_at(near: Seq<bool>, i: int) -> bool {
    0 <= i < near.len() && near[i]
}

/// `n` copies of `f`.
pub open spec fn copies(f: FeatureData, n: nat) -> Seq<FeatureData> {
    Seq::new(n, |_k: int| f)
}

/// What a query lists from the first `n` features, in table order. A pair
/// whose key an earlier pair already holds is shadowed and never listed.
pub open spec fn listed(features: Seq<(String, FeatureData)>, near: Seq<bool>, query: Seq<char>, n: nat) -> Seq<FeatureData>
    decreases n,
{
    if n == 0 {
        Seq::empty()
    } else {
        let f = features[n - 1].1;
        let shown = if is_first_key(features, features[n - 1].0@, n - 1) {
            times_listed(f, query, near_at(near, n - 1))
        } else {
            0
        };
        listed(features, near, query, (n - 1) as nat) + copies(f, shown)
    }
}

/// The features that a list of references points at.
pub open spec fn features_of(refs: Seq<&FeatureData>) -> Seq<FeatureData> {
    refs.map_values(|f: &FeatureData| *f)
}

/// Whether `text`, in lower case, holds `query`.
fn text_matches(text: &str, query: &str) -> (r: bool)
    ensures
        r == text_hit(text@, query@),
{
    let lower = lowercase(text);
    contains_str(lower.as_str(), query)
}

/// Whether the slug, the flag or the title of `f` holds `query`.
fn names_match(f: &FeatureData, query: &str) -> (r: bool)
    ensures
        r == names_hit(*f, query@),
{
    if text_matches(f.slug.as_str(), query) {
        return true;
    }
    let flag_hit = match &f.flag {
        Some(flag) => text_matches(flag.as_str(), query),
        None => false,
    };
    flag_hit || text_matches(f.title.as_str(), query)
}

/// Appends `f` to `out` once for each of `texts` that holds `query`.
fn push_hits<'a>(out: &mut Vec<&'a FeatureData>, f: &'a FeatureData, texts: &Vec<String>, query: &str)
    ensures
        features_of(final(out)@) == features_of(old(out)@) + copies(*f, count_hits(texts@, query@)),
{
    let ghost start = features_of(out@);
    let mut k: usize = 0;
    while k < texts.len()
        invariant
            k <= texts@.len(),
            features_of(out@) == start + copies(*f, count_hits(texts@.subrange(0, k as int), query@)),
        decreases texts@.len() - k,
    {
        let ghost prev = features_of(out@);
        let hit = text_matches(texts[k].as_str(), query);
        if hit {
            out.push(f);
        }
        proof {
            let sub = texts@.subrange(0, k + 1);
            assert(sub.drop_last() =~= texts@.subrange(0, k as int));
            assert(sub.last() == texts@[k as int]);
            let n = count_hits(texts@.subrange(0, k as int), query@);
            if hit {
                assert(copies(*f, n + 1) =~= copies(*f, n).push(*f));
                assert(features_of(out@) =~= prev.push(*f));
            }
            assert(features_of(out@) =~= start + copies(*f, count_hits(sub, query@)));
        }
        k = k + 1;
    }
    assert(texts@.subrange(0, texts@.len() as int) =~= texts@);
}

/// `f` with its slug replaced by `slug`.
pub open spec fn relabelled(f: FeatureData, slug: String) -> FeatureData {
    FeatureData { slug, ..f }
}

impl Db {
    /// The versions the table holds, in order, one per key.
    pub open spec fn version_records(&self) -> Seq<CompilerVersionData> {
        records(self.versions@, self.versions@.len())
    }

    /// An empty database fetched from `base_url`.
    pub fn new(base_url: String) -> (r: Db)
        ensures
            r.base_url@ == base_url@,
            r.versions@.len() == 0,
            r.features@.len() == 0,
    {
        Db { base_url, versions: Vec::new(), features: Vec::new() }
    }

    /// Sets each feature's slug to the key it is stored under.
    pub fn fill_slugs(&mut self)
        ensures
            final(self).base_url == old(self).base_url,
            final(self).versions == old(self).versions,
            final(self).features@.len() == old(self).features@.len(),
            forall|i: int|
                0 <= i < old(self).features@.len() ==> #[trigger] final(self).features@[i] == (
                old(self).features@[i].0,
                relabelled(old(self).features@[i].1, old(self).features@[i].0),
            ),
    {
        let mut pending: Vec<(String, FeatureData)> = Vec::new();
        std::mem::swap(&mut pending, &mut self.features);
        let ghost orig = pending@;
        let mut done: Vec<(String, FeatureData)> = Vec::new();
        while pending.len() > 0
            invariant
                done@.len() + pending@.len() == orig.len(),
                pending@ == orig.subrange(done@.len() as int, orig.len() as int),
                forall|k: int|
                    0 <= k < done@.len() ==> #[trigger] done@[k] == (
                        orig[k].0,
                        relabelled(orig[k].1, orig[k].0),
                    ),
            decreases pending@.len(),
        {
            let ghost at = done@.len() as int;
            let (key, mut feature) = pending.remove(0);
            assert(orig[at] == (key, feature));
            feature.slug = key.clone();
            done.push((key, feature));
            assert(pending@ =~= orig.subrange(done@.len() as int, orig.len() as int));
        }
        self.features = done;
    }

    /// The most recent versions, at most ten, from most to least recent
    /// (where two pairs hold one key, only the first counts):
    /// by channel first (nightly above beta above stable), then by release
    /// date, with versions lacking a readable date below dated ones.
    pub fn versions_preview<'a>(&'a self) -> (r: Vec<&'a CompilerVersionData>)
        ensures
            r@.len() == if self.version_records().len() < PREVIEW_LEN {
                self.version_records().len()
            } else {
                PREVIEW_LEN as nat
            },
            exists|rest: Seq<CompilerVersionData>|
                values_of(r@).to_multiset().add(rest.to_multiset()) == self.version_records().to_multiset() && ranked_preview(values_of(r@), rest),
            forall|i: int, j: int|
                0 <= i < j < r@.len() ==> recency_order(*r@[i], *r@[j]) != core::cmp::Ordering::Less,
    {
        broadcast use vstd::seq_lib::group_to_multiset_ensures;
        broadcast use vstd::multiset::group_multiset_axioms;

        let ghost all = self.version_records();
        let mut pool: Vec<&'a CompilerVersionData> = Vec::new();
        let mut i: usize = 0;
        while i < self.versions.len()
            invariant
                i <= self.versions@.len(),
                all == self.version_records(),
                values_of(pool@) == records(self.versions@, i as nat),
            decreases self.versions@.len() - i,
        {
            let ghost prev = values_of(pool@);
            let first = match find_key(&self.versions, self.versions[i].0.as_str()) {
                Some(j) => j == i,
                None => false,
            };
            if first {
                pool.push(&self.versions[i].1);
                assert(values_of(pool@) =~= prev.push(self.versions@[i as int].1));
            }
            i = i + 1;
        }
        let mut out: Vec<&'a CompilerVersionData> = Vec::new();
        assert(values_of(out@).to_multiset().add(values_of(pool@).to_multiset()) =~= all.to_multiset());
        while out.len() < PREVIEW_LEN && pool.len() > 0
            invariant
                all == self.version_records(),
                out@.len() <= PREVIEW_LEN,
                out@.len() + pool@.len() == all.len(),
                values_of(out@).to_multiset().add(values_of(pool@).to_multiset()) == all.to_multiset(),
                ranked_preview(values_of(out@), values_of(pool@)),
            decreases pool@.len(),
        {
            let ghost before = values_of(pool@);
            let ghost shown = values_of(out@);
            let b = most_recent(&pool);
            let picked = pool.remove(b);
            out.push(picked);
            proof {
                assert(values_of(pool@) =~= before.remove(b as int));
                assert(values_of(out@) =~= shown.push(before[b as int]));
                let x = before[b as int];
                assert(before.contains(x));
                vstd::seq_lib::to_multiset_contains(before, x);
                vstd::seq_lib::to_multiset_build(shown, x);
                vstd::seq_lib::to_multiset_remove(before, b as int);
                assert(before.to_multiset().count(x) > 0);
                assert(values_of(out@).to_multiset() == shown.to_multiset().insert(x));
                assert(values_of(pool@).to_multiset() == before.to_multiset().remove(x));
                assert(values_of(out@).to_multiset().add(values_of(pool@).to_multiset())
                    =~= shown.to_multiset().add(before.to_multiset()));
                let vo = values_of(out@);
                let vp = values_of(pool@);
                assert forall|i: int, j: int| 0 <= i < j < vo.len() implies at_least_as_recent(
                    vo[i],
                    vo[j],
                ) by {
                    if j == vo.len() - 1 {
                        assert(vo[j] == before[b as int]);
                    }
                }
                assert forall|i: int, k: int|
                    0 <= i < vo.len() && 0 <= k < vp.len() implies at_least_as_recent(
                    vo[i],
                    vp[k],
                ) by {
                    let kk = if k < b {
                        k
                    } else {
                        k + 1
                    };
                    assert(vp[k] == before[kk]);
                }
            }
        }
        proof {
            let vo = values_of(out@);
            assert forall|i: int, j: int| 0 <= i < j < out@.len() implies recency_order(
                *out@[i],
                *out@[j],
            ) != core::cmp::Ordering::Less by {
                assert(at_least_as_recent(vo[i], vo[j]));
            }
            assert(ranked_preview(values_of(out@), values_of(pool@)));
        }
        out
    }

    /// The features that match `query`, in table order. Where two pairs
    /// hold one key, only the first counts.
    ///
    /// A feature whose slug, flag or title holds the query (compared in lower
    /// case) is listed once. Any other is listed once for each of its items
    /// and aliases that holds the query, and once more where `near` marks it:
    /// entry `i` of `near` says whether feature `i` is close to the query by
    /// a similarity measure of the caller's choosing (missing entries count
    /// as `false`).
    pub fn lookup<'a>(&'a self, query: &str, near: &Vec<bool>) -> (r: Vec<&'a FeatureData>)
        ensures
            features_of(r@) == listed(self.features@, near@, query@, self.features@.len()),
    {
        let mut out: Vec<&'a FeatureData> = Vec::new();
        let mut i: usize = 0;
        assert(features_of(out@) =~= listed(self.features@, near@, query@, 0));
        while i < self.features.len()
            invariant
                i <= self.features@.len(),
                features_of(out@) == listed(self.features@, near@, query@, i as nat),
            decreases self.features@.len() - i,
        {
            let ghost prev = features_of(out@);
            let f = &self.features[i].1;
            let close = i < near.len() && near[i];
            let first = match find_key(&self.features, self.features[i].0.as_str()) {
                Some(j) => j == i,
                None => false,
            };
            if !first {
                assert(copies(*f, 0) =~= Seq::<FeatureData>::empty());
                assert(features_of(out@) =~= prev + copies(*f, 0));
            } else if names_match(f, query) {
                out.push(f);
                assert(copies(*f, 1) =~= seq![*f]);
                assert(features_of(out@) =~= prev + copies(*f, 1));
            } else {
                push_hits(&mut out, f, &f.items, query);
                push_hits(&mut out, f, &f.aliases, query);
                let ghost a = count_hits(f.items@, query@);
                let ghost b = count_hits(f.aliases@, query@);
                assert(copies(*f, a) + copies(*f, b) =~= copies(*f, a + b));
                if close {
                    let ghost mid = features_of(out@);
                    out.push(f);
                    assert(copies(*f, a + b + 1) =~= copies(*f, a + b).push(*f));
                    assert(features_of(out@) =~= mid.push(*f));
                }
                assert(features_of(out@) =~= prev + copies(*f, times_listed(*f, query@, close)));
            }
            i = i + 1;
        }
        out
    }

    /// Finds a feature given its slug, together with the data of the version
    /// that stabilized it. A version that the feature names but the database
    /// lacks gives `None` in the second place.
    pub fn get_feature<'a>(&'a self, name: &str) -> (r: Option<
        (&'a FeatureData, Option<&'a CompilerVersionData>),
    >)
        ensures
            r is Some <==> record_for(self.features@, name@) is Some,
            r matches Some((feature, version)) ==> Some(*feature) == record_for(
                self.features@,
                name@,
            ) && match feature.version_number {
                Some(v) => (version is Some <==> record_for(self.versions@, v@) is Some) && (
                version matches Some(data) ==> Some(*data) == record_for(self.versions@, v@)),
                None => version is None,
            },
    {
        let i = match find_key(&self.features, name) {
            Some(i) => i,
            None => {
                return None;
            },
        };
        proof {
            lemma_first_key_unique(self.features@, name@, i as int);
        }
        let feature = &self.features[i].1;
        match &feature.version_number {
            Some(v) => match find_key(&self.versions, v.as_str()) {
                Some(j) => {
                    proof {
                        lemma_first_key_unique(self.versions@, v@, j as int);
                    }
                    Some((feature, Some(&self.versions[j].1)))
                },
                None => Some((feature, None)),
            },
            None => Some((feature, None)),
        }
    }
}

} // verus!
