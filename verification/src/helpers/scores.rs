use vstd::prelude::*;
use vstd::string::*;

verus! {

/// The table that a list of pairs stands for: each key with the score of the
/// last pair that bears it.
pub open spec fn table_of(pairs: Seq<(Seq<char>, Seq<char>)>) -> Map<Seq<char>, Seq<char>>
    decreases pairs.len(),
{
    if pairs.len() == 0 {
        Map::empty()
    } else {
        table_of(pairs.drop_last()).insert(pairs.last().0, pairs.last().1)
    }
}

/// No key stands in two pairs.
pub open spec fn distinct_keys(pairs: Seq<(Seq<char>, Seq<char>)>) -> bool {
    forall|i: int, j: int| 0 <= i < j < pairs.len() ==> pairs[i].0 != pairs[j].0
}

/// The keys of the table are the keys of the pairs.
pub proof fn lemma_table_keys(pairs: Seq<(Seq<char>, Seq<char>)>, key: Seq<char>)
    ensures
        table_of(pairs).contains_key(key) <==> exists|i: int|
            0 <= i < pairs.len() && (#[trigger] pairs[i]).0 == key,
    decreases pairs.len(),
{
    if pairs.len() > 0 {
        let rest = pairs.drop_last();
        lemma_table_keys(rest, key);
        if table_of(pairs).contains_key(key) {
            if pairs.last().0 == key {
                assert(pairs[pairs.len() - 1].0 == key);
            } else {
                let i = choose|i: int| 0 <= i < rest.len() && (#[trigger] rest[i]).0 == key;
                assert(pairs[i] == rest[i]);
            }
        }
        if exists|i: int| 0 <= i < pairs.len() && (#[trigger] pairs[i]).0 == key {
            let i = choose|i: int| 0 <= i < pairs.len() && (#[trigger] pairs[i]).0 == key;
            if i < pairs.len() - 1 {
                assert(rest[i] == pairs[i]);
            }
        }
    }
}

/// Where no key stands twice, the table gives each pair's key that pair's
/// score.
pub proof fn lemma_table_entry(pairs: Seq<(Seq<char>, Seq<char>)>, i: int)
    requires
        distinct_keys(pairs),
        0 <= i < pairs.len(),
    ensures
        table_of(pairs).contains_key(pairs[i].0),
        table_of(pairs)[pairs[i].0] == pairs[i].1,
    decreases pairs.len(),
{
    let rest = pairs.drop_last();
    if i < pairs.len() - 1 {
        assert(distinct_keys(rest)) by {
            assert forall|a: int, b: int| 0 <= a < b < rest.len() implies rest[a].0 != rest[b].0 by {
                assert(rest[a] == pairs[a]);
                assert(rest[b] == pairs[b]);
            }
        }
        lemma_table_entry(rest, i);
        assert(rest[i] == pairs[i]);
        assert(pairs[i].0 != pairs[pairs.len() - 1].0);
    }
}

/// Putting a new score in the place of a pair's old one is inserting the
/// score under that pair's key.
pub proof fn lemma_table_update(pairs: Seq<(Seq<char>, Seq<char>)>, i: int, score: Seq<char>)
    requires
        distinct_keys(pairs),
        0 <= i < pairs.len(),
    ensures
        table_of(pairs.update(i, (pairs[i].0, score))) == table_of(pairs).insert(
            pairs[i].0,
            score,
        ),
        distinct_keys(pairs.update(i, (pairs[i].0, score))),
    decreases pairs.len(),
{
    let key = pairs[i].0;
    let updated = pairs.update(i, (key, score));
    let rest = pairs.drop_last();
    assert(distinct_keys(updated));
    if i == pairs.len() - 1 {
        assert(updated.drop_last() =~= rest);
        assert(table_of(updated) =~= table_of(pairs).insert(key, score));
    } else {
        assert(distinct_keys(rest)) by {
            assert forall|a: int, b: int| 0 <= a < b < rest.len() implies rest[a].0 != rest[b].0 by {
                assert(rest[a] == pairs[a]);
                assert(rest[b] == pairs[b]);
            }
        }
        assert(rest[i] == pairs[i]);
        lemma_table_update(rest, i, score);
        assert(updated.drop_last() =~= rest.update(i, (key, score)));
        assert(updated.last() == pairs.last());
        assert(pairs.last().0 != key);
        assert(table_of(updated) =~= table_of(pairs).insert(key, score));
    }
}

/// Scores by key: each key has one score.
#[derive(Debug, PartialEq)]
pub struct ScoreTable {
    entries: Vec<(String, String)>,
}

impl View for ScoreTable {
    type V = Map<Seq<char>, Seq<char>>;

    closed spec fn view(&self) -> Map<Seq<char>, Seq<char>> {
        table_of(self.entries.deep_view())
    }
}

impl ScoreTable {
    #[verifier::type_invariant]
    spec fn well_formed(self) -> bool {
        distinct_keys(self.entries.deep_view())
    }

    /// A table without keys.
    pub fn new() -> (r: ScoreTable)
        ensures
            r@ == Map::<Seq<char>, Seq<char>>::empty(),
    {
        let r = ScoreTable { entries: Vec::new() };
        assert(r.entries.deep_view() =~= Seq::empty());
        r
    }

    /// The table in which `key` has the score `score`, in the place of the
    /// score that it had if it had one, and every other key is as before.
    pub fn with_score(self, key: String, score: String) -> (r: ScoreTable)
        ensures
            r@ == self@.insert(key@, score@),
    {
        proof {
            use_type_invariant(&self);
        }
        let ghost pairs = self.entries.deep_view();
        let mut entries = self.entries;
        let mut i: usize = 0;
        while i < entries.len()
            invariant
                i <= entries.len(),
                pairs == entries.deep_view(),
                self@ == table_of(pairs),
                distinct_keys(pairs),
                forall|k: int| 0 <= k < i ==> (#[trigger] pairs[k]).0 != key@,
            decreases entries.len() - i,
        {
            if entries[i].0 == key {
                proof {
                    assert(pairs[i as int].0 == key@);
                    lemma_table_update(pairs, i as int, score@);
                }
                entries.set(i, (key, score));
                assert(entries.deep_view() =~= pairs.update(i as int, (key@, score@)));
                return ScoreTable { entries };
            }
            i += 1;
        }
        entries.push((key, score));
        proof {
            let grown = entries.deep_view();
            assert(grown =~= pairs.push((key@, score@)));
            assert(grown.drop_last() =~= pairs);
            assert(distinct_keys(grown));
        }
        ScoreTable { entries }
    }

    /// The score of `key`, if it has one.
    pub fn get(&self, key: &str) -> (r: Option<&String>)
        ensures
            match r {
                Some(score) => self@.contains_key(key@) && self@[key@] == score@,
                None => !self@.contains_key(key@),
            },
    {
        proof {
            use_type_invariant(self);
        }
        let wanted = String::from_str(key);
        let ghost pairs = self.entries.deep_view();
        let mut i: usize = 0;
        while i < self.entries.len()
            invariant
                i <= self.entries.len(),
                wanted@ == key@,
                pairs == self.entries.deep_view(),
                distinct_keys(pairs),
                forall|k: int| 0 <= k < i ==> (#[trigger] pairs[k]).0 != key@,
            decreases self.entries.len() - i,
        {
            if self.entries[i].0 == wanted {
                proof {
                    lemma_table_entry(pairs, i as int);
                }
                return Some(&self.entries[i].1);
            }
            i += 1;
        }
        proof {
            lemma_table_keys(pairs, key@);
        }
        None
    }

    /// The keys with their scores, each key once.
    pub fn entries(&self) -> (r: &Vec<(String, String)>)
        ensures
            distinct_keys(r.deep_view()),
            table_of(r.deep_view()) == self@,
    {
        proof {
            use_type_invariant(self);
        }
        &self.entries
    }
}

} // verus!
