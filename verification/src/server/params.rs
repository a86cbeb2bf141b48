//! Query parameters of a redirect request: a flat mapping from keys to
//! values. Where a key occurs more than once, its last occurrence wins.

use crate::text::str_eq;
use vstd::prelude::*;

verus! {

/// A decoded query string before duplicates are resolved: key/value pairs in
/// the order in which they were written.
pub type PairSeq = Seq<(Seq<char>, Seq<char>)>;

/// The mapping that a list of pairs stands for. Pairs are applied from first
/// to last, so a later pair replaces an earlier one with the same key.
pub open spec fn last_wins(pairs: PairSeq) -> Map<Seq<char>, Seq<char>>
    decreases pairs.len(),
{
    if pairs.len() == 0 {
        Map::empty()
    } else {
        last_wins(pairs.drop_last()).insert(pairs.last().0, pairs.last().1)
    }
}

/// Whether some pair carries `key`.
pub open spec fn has_key(pairs: PairSeq, key: Seq<char>) -> bool {
    exists|i: int| 0 <= i < pairs.len() && #[trigger] pairs[i].0 == key
}

/// Whether no key occurs twice.
pub open spec fn distinct_keys(pairs: PairSeq) -> bool {
    forall|i: int, j: int|
        0 <= i < j < pairs.len() ==> #[trigger] pairs[i].0 != #[trigger] pairs[j].0
}

/// A key is mapped exactly when some pair carries it.
pub proof fn lemma_last_wins_domain(pairs: PairSeq, key: Seq<char>)
    ensures
        last_wins(pairs).contains_key(key) <==> has_key(pairs, key),
    decreases pairs.len(),
{
    if pairs.len() > 0 {
        let init = pairs.drop_last();
        lemma_last_wins_domain(init, key);
        if has_key(init, key) {
            let i = choose|i: int| 0 <= i < init.len() && #[trigger] init[i].0 == key;
            assert(pairs[i].0 == key);
        }
        if has_key(pairs, key) {
            let i = choose|i: int| 0 <= i < pairs.len() && #[trigger] pairs[i].0 == key;
            if i < init.len() {
                assert(init[i].0 == key);
            }
        }
    }
}

/// The last occurrence of a key decides its value: a pair that no later pair
/// shadows is the one the mapping reports.
pub proof fn lemma_last_occurrence_wins(pairs: PairSeq, i: int)
    requires
        0 <= i < pairs.len(),
        forall|j: int| i < j < pairs.len() ==> #[trigger] pairs[j].0 != pairs[i].0,
    ensures
        last_wins(pairs).contains_key(pairs[i].0),
        last_wins(pairs)[pairs[i].0] == pairs[i].1,
    decreases pairs.len(),
{
    let init = pairs.drop_last();
    if i < pairs.len() - 1 {
        assert(pairs[pairs.len() - 1].0 != pairs[i].0);
        assert forall|j: int| i < j < init.len() implies #[trigger] init[j].0 != init[i].0 by {
            assert(pairs[j].0 != pairs[i].0);
        }
        lemma_last_occurrence_wins(init, i);
    }
}

/// Appending a pair is inserting it into the mapping.
pub proof fn lemma_last_wins_push(pairs: PairSeq, key: Seq<char>, value: Seq<char>)
    ensures
        last_wins(pairs.push((key, value))) == last_wins(pairs).insert(key, value),
{
    assert(pairs.push((key, value)).drop_last() =~= pairs);
}

/// Replacing the value of the one pair that carries `key` is inserting the
/// new pair into the mapping.
pub proof fn lemma_last_wins_update(pairs: PairSeq, at: int, value: Seq<char>)
    requires
        distinct_keys(pairs),
        0 <= at < pairs.len(),
    ensures
        distinct_keys(pairs.update(at, (pairs[at].0, value))),
        last_wins(pairs.update(at, (pairs[at].0, value))) == last_wins(pairs).insert(
            pairs[at].0,
            value,
        ),
    decreases pairs.len(),
{
    let key = pairs[at].0;
    let changed = pairs.update(at, (key, value));
    let init = pairs.drop_last();
    assert forall|i: int, j: int| 0 <= i < j < changed.len() implies #[trigger] changed[i].0
        != #[trigger] changed[j].0 by {
        assert(pairs[i].0 != pairs[j].0);
    }
    if at == pairs.len() - 1 {
        assert(changed.drop_last() =~= init);
        assert(last_wins(init).insert(key, pairs.last().1).insert(key, value) =~= last_wins(
            init,
        ).insert(key, value));
    } else {
        assert forall|i: int, j: int| 0 <= i < j < init.len() implies #[trigger] init[i].0
            != #[trigger] init[j].0 by {
            assert(pairs[i].0 != pairs[j].0);
        }
        lemma_last_wins_update(init, at, value);
        assert(changed.drop_last() =~= init.update(at, (init[at].0, value)));
        assert(pairs[at].0 != pairs[pairs.len() - 1].0);
        let last = pairs.last();
        assert(last_wins(init).insert(key, value).insert(last.0, last.1) =~= last_wins(
            init,
        ).insert(last.0, last.1).insert(key, value));
    }
}

/// With distinct keys the mapping has as many entries as there are pairs.
pub proof fn lemma_last_wins_len(pairs: PairSeq)
    requires
        distinct_keys(pairs),
    ensures
        last_wins(pairs).dom().finite(),
        last_wins(pairs).dom().len() == pairs.len(),
    decreases pairs.len(),
{
    if pairs.len() > 0 {
        let init = pairs.drop_last();
        let last = pairs.last();
        assert forall|i: int, j: int| 0 <= i < j < init.len() implies #[trigger] init[i].0
            != #[trigger] init[j].0 by {
            assert(pairs[i].0 != pairs[j].0);
        }
        lemma_last_wins_len(init);
        lemma_last_wins_domain(init, last.0);
        if has_key(init, last.0) {
            let i = choose|i: int| 0 <= i < init.len() && #[trigger] init[i].0 == last.0;
            assert(pairs[i].0 != pairs[pairs.len() - 1].0);
        }
        assert(last_wins(pairs).dom() =~= last_wins(init).dom().insert(last.0));
    } else {
        assert(last_wins(pairs).dom() =~= Set::empty());
    }
}

/// What a query string decodes to as `application/x-www-form-urlencoded`
/// data: its key/value pairs in written order, or nothing where it cannot be
/// decoded. The decoding itself is `axum`'s.
pub uninterp spec fn decoded_query(query: Seq<char>) -> Option<Seq<(Seq<char>, Seq<char>)>>;

/// Decodes a query string with `axum::extract::Query::try_from_uri`, asked
/// for a list of string pairs, on the URI `/?` followed by `query`.
///
/// Trusted: the result is taken to be a function of `query` alone, named
/// [`decoded_query`]. Nothing else is claimed of it; in particular not that
/// decoding succeeds.
#[verifier::external_body]
fn decode_query(query: &str) -> (pairs: Option<Vec<(String, String)>>)
    ensures
        pairs.deep_view() == decoded_query(query@),
{
    let uri = format!("/?{}", query).parse::<axum::http::Uri>().ok()?;
    axum::extract::Query::<Vec<(String, String)>>::try_from_uri(&uri).ok().map(|found| found.0)
}

/// The parameters of one request, with every key held once.
#[derive(Debug)]
pub struct QueryParams {
    entries: Vec<(String, String)>,
}

impl View for QueryParams {
    type V = Map<Seq<char>, Seq<char>>;

    closed spec fn view(&self) -> Map<Seq<char>, Seq<char>> {
        last_wins(self.entries.deep_view())
    }
}

impl QueryParams {
    #[verifier::type_invariant]
    spec fn keys_held_once(&self) -> bool {
        distinct_keys(self.entries.deep_view())
    }

    /// The empty mapping.
    pub fn new() -> (params: Self)
        ensures
            params@ == Map::<Seq<char>, Seq<char>>::empty(),
    {
        let params = QueryParams { entries: Vec::new() };
        assert(params.entries.deep_view() =~= Seq::empty());
        params
    }

    fn position(&self, key: &str) -> (at: Option<usize>)
        ensures
            match at {
                Some(j) => j < self.entries.len() && self.entries[j as int].0@ == key@,
                None => forall|j: int| 0 <= j < self.entries.len() ==> self.entries[j].0@ != key@,
            },
    {
        let mut j: usize = 0;
        while j < self.entries.len()
            invariant
                j <= self.entries.len(),
                forall|k: int| 0 <= k < j ==> self.entries[k].0@ != key@,
            decreases self.entries.len() - j,
        {
            if str_eq(self.entries[j].0.as_str(), key) {
                return Some(j);
            }
            j += 1;
        }
        None
    }

    /// Number of distinct keys.
    pub fn len(&self) -> (count: usize)
        ensures
            self@.dom().finite(),
            count == self@.dom().len(),
    {
        proof {
            use_type_invariant(self);
            lemma_last_wins_len(self.entries.deep_view());
        }
        self.entries.len()
    }

    /// Whether `key` is mapped.
    pub fn contains_key(&self, key: &str) -> (present: bool)
        ensures
            present == self@.contains_key(key@),
    {
        let at = self.position(key);
        proof {
            let pairs = self.entries.deep_view();
            lemma_last_wins_domain(pairs, key@);
            if let Some(j) = at {
                assert(pairs[j as int].0 == key@);
            }
        }
        at.is_some()
    }

    /// The value that `key` is mapped to, if any.
    pub fn get(&self, key: &str) -> (value: Option<&str>)
        ensures
            match value {
                Some(v) => self@.contains_key(key@) && self@[key@] == v@,
                None => !self@.contains_key(key@),
            },
    {
        let at = self.position(key);
        proof {
            use_type_invariant(self);
            let pairs = self.entries.deep_view();
            lemma_last_wins_domain(pairs, key@);
            if let Some(j) = at {
                assert(pairs[j as int].0 == key@);
                lemma_last_occurrence_wins(pairs, j as int);
            }
        }
        match at {
            Some(j) => Some(self.entries[j].1.as_str()),
            None => None,
        }
    }

    /// Maps `key` to `value`, replacing what `key` was mapped to before.
    pub fn insert(&mut self, key: String, value: String)
        ensures
            final(self)@ == old(self)@.insert(key@, value@),
    {
        proof {
            use_type_invariant(&*self);
        }
        let ghost before = self.entries.deep_view();
        let found = self.position(key.as_str());
        let mut entries: Vec<(String, String)> = Vec::new();
        assert(entries.deep_view() =~= Seq::empty());
        std::mem::swap(&mut self.entries, &mut entries);
        match found {
            Some(j) => {
                proof {
                    lemma_last_wins_update(before, j as int, value@);
                }
                entries.set(j, (key, value));
                assert(entries.deep_view() =~= before.update(j as int, (key@, value@)));
            },
            None => {
                proof {
                    lemma_last_wins_push(before, key@, value@);
                }
                entries.push((key, value));
                assert(entries.deep_view() =~= before.push((key@, value@)));
                assert forall|i: int, j: int|
                    0 <= i < j < entries.deep_view().len() implies #[trigger] entries.deep_view()[i].0
                    != #[trigger] entries.deep_view()[j].0 by {
                    if j < before.len() {
                        assert(before[i].0 != before[j].0);
                    } else {
                        assert(before[i].0 == old(self).entries[i].0@);
                    }
                }
            },
        }
        self.entries = entries;
    }

    /// The parameters that a raw query string carries, or `None` where the
    /// string cannot be decoded.
    pub fn parse(query: &str) -> (parsed: Option<Self>)
        ensures
            match decoded_query(query@) {
                Some(pairs) => parsed matches Some(params) && params@ == last_wins(pairs),
                None => parsed is None,
            },
    {
        match decode_query(query) {
            Some(pairs) => Some(QueryParams::from_pairs(pairs)),
            None => None,
        }
    }

    /// The entries as a list of pairs, each key once.
    pub fn to_pairs(&self) -> (pairs: Vec<(String, String)>)
        ensures
            distinct_keys(pairs.deep_view()),
            last_wins(pairs.deep_view()) == self@,
    {
        proof {
            use_type_invariant(self);
        }
        let mut pairs: Vec<(String, String)> = Vec::new();
        let mut i: usize = 0;
        while i < self.entries.len()
            invariant
                i <= self.entries.len(),
                pairs.len() == i,
                forall|k: int| 0 <= k < i ==> pairs[k] == self.entries[k],
            decreases self.entries.len() - i,
        {
            pairs.push((self.entries[i].0.clone(), self.entries[i].1.clone()));
            i += 1;
        }
        assert(pairs.deep_view() =~= self.entries.deep_view());
        pairs
    }

    /// The mapping that `pairs` stands for: the last occurrence of a key wins.
    pub fn from_pairs(pairs: Vec<(String, String)>) -> (params: Self)
        ensures
            params@ == last_wins(pairs.deep_view()),
    {
        let mut params = QueryParams::new();
        let mut i: usize = 0;
        assert(pairs.deep_view().take(0) =~= Seq::empty());
        while i < pairs.len()
            invariant
                i <= pairs.len(),
                params@ == last_wins(pairs.deep_view().take(i as int)),
            decreases pairs.len() - i,
        {
            let key = pairs[i].0.clone();
            let value = pairs[i].1.clone();
            proof {
                let done = pairs.deep_view().take(i as int);
                let next = pairs.deep_view().take(i + 1);
                assert(next.drop_last() =~= done);
                assert(next.last() == (key@, value@));
            }
            params.insert(key, value);
            i += 1;
        }
        assert(pairs.deep_view().take(pairs.len() as int) =~= pairs.deep_view());
        params
    }
}

} // verus!
