//! Config-driven topic remap.
//!
//! Deployments map upstream topics onto the canonical names `inv`
//! consumes. Lookups are exact-match; misses pass the input through.

use vstd::prelude::*;

verus! {

/// The map built from a sequence of `(topic, canonical)` pairs, later
/// pairs replacing earlier ones with the same topic.
pub open spec fn pairs_to_map(pairs: Seq<(Seq<char>, Seq<char>)>) -> Map<Seq<char>, Seq<char>>
    decreases pairs.len(),
{
    if pairs.len() == 0 {
        Map::empty()
    } else {
        pairs_to_map(pairs.drop_last()).insert(pairs.last().0, pairs.last().1)
    }
}

/// The topics of the pairs, in order.
pub open spec fn pair_topics(pairs: Seq<(Seq<char>, Seq<char>)>) -> Seq<Seq<char>> {
    pairs.map_values(|p: (Seq<char>, Seq<char>)| p.0)
}

/// The position of the last pair whose topic is `k`, or `-1` when none is.
pub open spec fn last_topic_index(pairs: Seq<(Seq<char>, Seq<char>)>, k: Seq<char>) -> int
    decreases pairs.len(),
{
    if pairs.len() == 0 {
        -1
    } else if pairs.last().0 == k {
        pairs.len() - 1
    } else {
        last_topic_index(pairs.drop_last(), k)
    }
}

/// A map built from pairs holds exactly their distinct topics (so its
/// count is the number of distinct topics), maps each topic to the
/// canonical name of the last pair with that topic, and misses every
/// other topic.
pub proof fn pairs_map_law(pairs: Seq<(Seq<char>, Seq<char>)>)
    ensures
        pairs_to_map(pairs).dom().finite(),
        pairs_to_map(pairs).dom() == pair_topics(pairs).to_set(),
        pairs_to_map(pairs).dom().len() == pair_topics(pairs).to_set().len(),
        forall|k: Seq<char>|
            #[trigger] pairs_to_map(pairs).dom().contains(k) ==> {
                let i = last_topic_index(pairs, k);
                &&& 0 <= i < pairs.len()
                &&& pairs[i].0 == k
                &&& pairs_to_map(pairs)[k] == pairs[i].1
                &&& forall|j: int| i < j < pairs.len() ==> pairs[j].0 != k
            },
        forall|k: Seq<char>|
            !pairs_to_map(pairs).dom().contains(k) ==> #[trigger] last_topic_index(pairs, k) == -1,
    decreases pairs.len(),
{
    if pairs.len() == 0 {
        assert(pair_topics(pairs).to_set() =~= Set::empty());
    } else {
        let p = pairs.drop_last();
        let last = pairs.last();
        pairs_map_law(p);
        assert(pair_topics(pairs) =~= pair_topics(p).push(last.0));
        pair_topics(p).lemma_push_to_set_commute(last.0);
        assert forall|k: Seq<char>| !pairs_to_map(pairs).dom().contains(k) implies #[trigger] last_topic_index(
            pairs,
            k,
        ) == -1 by {
            assert(!pairs_to_map(p).dom().contains(k));
            assert(last_topic_index(p, k) == -1);
        }
        assert forall|k: Seq<char>| #[trigger] pairs_to_map(pairs).dom().contains(k) implies {
            let i = last_topic_index(pairs, k);
            &&& 0 <= i < pairs.len()
            &&& pairs[i].0 == k
            &&& pairs_to_map(pairs)[k] == pairs[i].1
            &&& forall|j: int| i < j < pairs.len() ==> pairs[j].0 != k
        } by {
            if k != last.0 {
                assert(pairs_to_map(p).dom().contains(k));
                let i = last_topic_index(p, k);
                assert(p[i] == pairs[i]);
                assert forall|j: int| i < j < pairs.len() implies pairs[j].0 != k by {
                    if j < p.len() {
                        assert(p[j] == pairs[j]);
                    }
                }
            }
        }
    }
}

/// No topic occurs twice among the entries.
pub open spec fn distinct_keys(entries: Seq<(String, String)>) -> bool {
    forall|i: int, j: int|
        0 <= i < entries.len() && 0 <= j < entries.len() && i != j ==> entries[i].0@ != entries[j].0@
}

/// The entries seen as plain character sequences.
pub open spec fn entries_view(entries: Seq<(String, String)>) -> Seq<(Seq<char>, Seq<char>)> {
    entries.map_values(|e: (String, String)| (e.0@, e.1@))
}

/// Config-driven topic remap: an exact-match map from upstream topic to
/// canonical topic.
#[derive(Debug)]
pub struct TopicMap {
    entries: Vec<(String, String)>,
}

impl View for TopicMap {
    type V = Map<Seq<char>, Seq<char>>;

    closed spec fn view(&self) -> Map<Seq<char>, Seq<char>> {
        pairs_to_map(entries_view(self.entries@))
    }
}

proof fn lemma_map_of_distinct(s: Seq<(String, String)>)
    requires
        distinct_keys(s),
    ensures
        pairs_to_map(entries_view(s)).dom().finite(),
        pairs_to_map(entries_view(s)).dom().len() == s.len(),
        forall|k: Seq<char>|
            #[trigger] pairs_to_map(entries_view(s)).dom().contains(k) <==> exists|i: int|
                0 <= i < s.len() && s[i].0@ == k,
        forall|i: int|
            0 <= i < s.len() ==> #[trigger] pairs_to_map(entries_view(s))[s[i].0@] == s[i].1@,
    decreases s.len(),
{
    if s.len() > 0 {
        let p = s.drop_last();
        assert(entries_view(s).drop_last() =~= entries_view(p));
        lemma_map_of_distinct(p);
        let m = pairs_to_map(entries_view(p));
        let last = s.last();
        assert(!m.dom().contains(last.0@)) by {
            if m.dom().contains(last.0@) {
                let i = choose|i: int| 0 <= i < p.len() && p[i].0@ == last.0@;
                assert(s[i].0@ == s[s.len() - 1].0@);
            }
        }
        assert forall|k: Seq<char>|
            #[trigger] pairs_to_map(entries_view(s)).dom().contains(k) <==> exists|i: int|
                0 <= i < s.len() && s[i].0@ == k by {
            if pairs_to_map(entries_view(s)).dom().contains(k) {
                if k == last.0@ {
                    assert(s[s.len() - 1].0@ == k);
                } else {
                    let i = choose|i: int| 0 <= i < p.len() && p[i].0@ == k;
                    assert(s[i].0@ == k);
                }
            }
            if exists|i: int| 0 <= i < s.len() && s[i].0@ == k {
                let i = choose|i: int| 0 <= i < s.len() && s[i].0@ == k;
                if i < s.len() - 1 {
                    assert(p[i].0@ == k);
                }
            }
        }
        assert forall|i: int| 0 <= i < s.len() implies #[trigger] pairs_to_map(entries_view(s))[s[i].0@]
            == s[i].1@ by {
            if i < s.len() - 1 {
                assert(p[i] == s[i]);
            }
        }
    }
}

proof fn lemma_map_update(s: Seq<(String, String)>, i: int, k: String, v: String)
    requires
        distinct_keys(s),
        0 <= i < s.len(),
        s[i].0@ == k@,
    ensures
        distinct_keys(s.update(i, (k, v))),
        pairs_to_map(entries_view(s.update(i, (k, v)))) == pairs_to_map(entries_view(s)).insert(
            k@,
            v@,
        ),
{
    let t = s.update(i, (k, v));
    lemma_map_of_distinct(s);
    lemma_map_of_distinct(t);
    let a = pairs_to_map(entries_view(t));
    let b = pairs_to_map(entries_view(s)).insert(k@, v@);
    assert forall|key: Seq<char>| a.dom().contains(key) <==> b.dom().contains(key) by {
        if a.dom().contains(key) {
            let j = choose|j: int| 0 <= j < t.len() && t[j].0@ == key;
            if j != i {
                assert(s[j].0@ == key);
                assert(pairs_to_map(entries_view(s)).dom().contains(key));
            }
        }
        if b.dom().contains(key) {
            if key != k@ {
                assert(pairs_to_map(entries_view(s)).dom().contains(key));
                let j = choose|j: int| 0 <= j < s.len() && s[j].0@ == key;
                assert(t[j].0@ == key);
            } else {
                assert(t[i].0@ == key);
            }
            assert(a.dom().contains(key));
        }
    }
    assert forall|key: Seq<char>| a.dom().contains(key) implies a[key] == b[key] by {
        let j = choose|j: int| 0 <= j < t.len() && t[j].0@ == key;
        if j != i {
            assert(s[j] == t[j]);
        }
    }
    assert(a =~= b);
}

proof fn lemma_map_push(s: Seq<(String, String)>, k: String, v: String)
    requires
        distinct_keys(s),
        forall|j: int| 0 <= j < s.len() ==> s[j].0@ != k@,
    ensures
        distinct_keys(s.push((k, v))),
        pairs_to_map(entries_view(s.push((k, v)))) == pairs_to_map(entries_view(s)).insert(k@, v@),
{
    let t = s.push((k, v));
    assert(entries_view(t).drop_last() =~= entries_view(s));
}

impl TopicMap {
    #[verifier::type_invariant]
    spec fn wf(self) -> bool {
        distinct_keys(self.entries@)
    }

    /// Construct an empty map.
    pub fn new() -> (m: Self)
        ensures
            m@ == Map::<Seq<char>, Seq<char>>::empty(),
            m@.dom().finite(),
    {
        let m = TopicMap { entries: Vec::new() };
        assert(entries_view(m.entries@) =~= Seq::empty());
        m
    }

    /// Construct from `(topic, canonical)` pairs; a later pair replaces an
    /// earlier one with the same topic.
    pub fn from_pairs(pairs: Vec<(String, String)>) -> (m: Self)
        ensures
            m@ == pairs_to_map(entries_view(pairs@)),
            m@.dom().finite(),
    {
        let mut m = TopicMap::new();
        let mut i: usize = 0;
        while i < pairs.len()
            invariant
                i <= pairs.len(),
                m@ == pairs_to_map(entries_view(pairs@.subrange(0, i as int))),
            decreases pairs.len() - i,
        {
            let k = pairs[i].0.clone();
            let v = pairs[i].1.clone();
            m.insert(k, v);
            assert(entries_view(pairs@.subrange(0, i + 1)).drop_last() =~= entries_view(
                pairs@.subrange(0, i as int),
            ));
            i = i + 1;
        }
        assert(pairs@.subrange(0, pairs.len() as int) =~= pairs@);
        proof {
            use_type_invariant(&m);
            lemma_map_of_distinct(m.entries@);
        }
        m
    }

    /// Add or replace one entry: the count grows by one exactly when the
    /// topic was not mapped before.
    pub fn insert(&mut self, topic: String, canonical: String)
        ensures
            final(self)@ == old(self)@.insert(topic@, canonical@),
            final(self)@.dom().finite(),
            final(self)@.dom().len() == old(self)@.dom().len() + if old(self)@.dom().contains(
                topic@,
            ) {
                0int
            } else {
                1int
            },
    {
        proof {
            use_type_invariant(&*self);
            lemma_map_of_distinct(self.entries@);
        }
        let mut i: usize = 0;
        while i < self.entries.len()
            invariant
                i <= self.entries.len(),
                distinct_keys(self.entries@),
                self.entries@ == old(self).entries@,
                old(self)@.dom().finite(),
                forall|j: int| 0 <= j < i ==> self.entries@[j].0@ != topic@,
            decreases self.entries.len() - i,
        {
            if self.entries[i].0 == topic {
                proof {
                    lemma_map_update(self.entries@, i as int, topic, canonical);
                }
                let mut entries: Vec<(String, String)> = Vec::new();
                std::mem::swap(&mut entries, &mut self.entries);
                entries.set(i, (topic, canonical));
                self.entries = entries;
                return;
            }
            i = i + 1;
        }
        proof {
            lemma_map_push(self.entries@, topic, canonical);
        }
        let mut entries: Vec<(String, String)> = Vec::new();
        std::mem::swap(&mut entries, &mut self.entries);
        entries.push((topic, canonical));
        self.entries = entries;
    }

    /// Total entry count.
    pub fn len(&self) -> (n: usize)
        ensures
            self@.dom().finite(),
            n == self@.dom().len(),
    {
        proof {
            use_type_invariant(self);
            lemma_map_of_distinct(self.entries@);
        }
        self.entries.len()
    }

    /// `true` if no entries.
    pub fn is_empty(&self) -> (b: bool)
        ensures
            b == (self@.dom().len() == 0),
    {
        self.len() == 0
    }

    /// Look up an entry. Returns `None` on a miss.
    pub fn get<'a>(&'a self, topic: &str) -> (r: Option<&'a str>)
        ensures
            self@.dom().finite(),
            match r {
                Some(s) => self@.dom().contains(topic@) && s@ == self@[topic@],
                None => !self@.dom().contains(topic@),
            },
    {
        proof {
            use_type_invariant(self);
            lemma_map_of_distinct(self.entries@);
        }
        let t = topic.to_owned();
        let mut i: usize = 0;
        while i < self.entries.len()
            invariant
                i <= self.entries.len(),
                t@ == topic@,
                distinct_keys(self.entries@),
                forall|j: int| 0 <= j < i ==> self.entries@[j].0@ != topic@,
            decreases self.entries.len() - i,
        {
            if self.entries[i].0 == t {
                proof {
                    lemma_map_of_distinct(self.entries@);
                }
                return Some(self.entries[i].1.as_str());
            }
            i = i + 1;
        }
        proof {
            lemma_map_of_distinct(self.entries@);
        }
        None
    }
}

impl Default for TopicMap {
    fn default() -> (m: Self)
        ensures
            m@ == Map::<Seq<char>, Seq<char>>::empty(),
    {
        TopicMap::new()
    }
}

/// The topic a remap yields: the configured canonical name, or the input.
pub open spec fn remapped(map: Map<Seq<char>, Seq<char>>, topic: Seq<char>) -> Seq<char> {
    if map.dom().contains(topic) {
        map[topic]
    } else {
        topic
    }
}

/// Apply the remap. Returns the canonical name when one is configured,
/// or the input verbatim when no entry matches.
pub fn remap_topic<'t>(map: &'t TopicMap, topic: &'t str) -> (r: &'t str)
    ensures
        r@ == remapped(map@, topic@),
{
    match map.get(topic) {
        Some(s) => s,
        None => topic,
    }
}

} // verus!
