//! Environment variables in the order of their names, each name once.
use vstd::prelude::*;

use crate::text;

verus! {

/// Variables sorted by name.
#[derive(Debug)]
pub struct EnvMap {
    entries: Vec<(String, String)>,
}

/// A variable's name and its value.
pub type Pair = (Seq<char>, Seq<char>);

pub open spec fn pairs(v: Seq<(String, String)>) -> Seq<Pair> {
    Seq::new(v.len(), |i: int| (v[i].0@, v[i].1@))
}

/// Names ascend, so that no name occurs twice.
pub open spec fn ascending(s: Seq<Pair>) -> bool {
    forall|i: int, j: int| 0 <= i < j < s.len() ==> text::before(#[trigger] s[i].0, #[trigger] s[j].0)
}

/// The value of a variable.
pub open spec fn lookup(s: Seq<Pair>, key: Seq<char>) -> Option<Seq<char>>
    decreases s.len(),
{
    if s.len() == 0 {
        None
    } else if s[0].0 == key {
        Some(s[0].1)
    } else {
        lookup(s.drop_first(), key)
    }
}

/// The variables with one set: in its place where it is new, with the new value
/// where it is there.
pub open spec fn with_pair(s: Seq<Pair>, key: Seq<char>, value: Seq<char>) -> Seq<Pair>
    decreases s.len(),
{
    if s.len() == 0 {
        seq![(key, value)]
    } else if s[0].0 == key {
        seq![(key, value)] + s.drop_first()
    } else if text::before(key, s[0].0) {
        seq![(key, value)] + s
    } else {
        seq![s[0]] + with_pair(s.drop_first(), key, value)
    }
}

/// What `lookup` finds stands in the sequence, and what stands there is found.
pub proof fn lookup_finds(s: Seq<Pair>, key: Seq<char>)
    requires
        ascending(s),
    ensures
        lookup(s, key) is Some ==> s.contains((key, lookup(s, key)->0)),
        forall|i: int|
            0 <= i < s.len() && (#[trigger] s[i]).0 == key ==> lookup(s, key) == Some(s[i].1),
    decreases s.len(),
{
    if s.len() > 0 {
        let t = s.drop_first();
        assert forall|i: int, j: int| 0 <= i < j < t.len() implies text::before(
            #[trigger] t[i].0,
            #[trigger] t[j].0,
        ) by {
            assert(t[i] == s[i + 1]);
            assert(t[j] == s[j + 1]);
        }
        lookup_finds(t, key);
        if s[0].0 == key {
            assert(s[0] == (key, lookup(s, key)->0));
            assert forall|i: int| 0 <= i < s.len() && (#[trigger] s[i]).0 == key implies lookup(
                s,
                key,
            ) == Some(s[i].1) by {
                if i > 0 {
                    assert(text::before(s[0].0, s[i].0));
                    text::before_irreflexive(key);
                }
            }
        } else {
            if lookup(s, key) is Some {
                let i = choose|i: int| 0 <= i < t.len() && t[i] == (key, lookup(t, key)->0);
                assert(s[i + 1] == (key, lookup(s, key)->0));
            }
            assert forall|i: int| 0 <= i < s.len() && (#[trigger] s[i]).0 == key implies lookup(
                s,
                key,
            ) == Some(s[i].1) by {
                assert(t[i - 1] == s[i]);
            }
        }
    }
}

/// Reading a variable back gives the value it was set to, and every other
/// variable keeps its own.
pub proof fn with_pair_lookup(s: Seq<Pair>, key: Seq<char>, value: Seq<char>, other: Seq<char>)
    ensures
        lookup(with_pair(s, key, value), key) == Some(value),
        other != key ==> lookup(with_pair(s, key, value), other) == lookup(s, other),
    decreases s.len(),
{
    let r = with_pair(s, key, value);
    if s.len() == 0 {
        assert(lookup(Seq::<Pair>::empty(), other) is None);
        assert(r.drop_first() =~= Seq::<Pair>::empty());
    } else if s[0].0 == key {
        assert(r.drop_first() =~= s.drop_first());
    } else if text::before(key, s[0].0) {
        assert(r.drop_first() =~= s);
    } else {
        with_pair_lookup(s.drop_first(), key, value, other);
        assert(r.drop_first() =~= with_pair(s.drop_first(), key, value));
    }
}

proof fn with_pair_at(s: Seq<Pair>, key: Seq<char>, value: Seq<char>, at: int)
    requires
        0 <= at <= s.len(),
        ascending(s),
        forall|i: int| 0 <= i < at ==> text::before(#[trigger] s[i].0, key),
        at < s.len() ==> s[at].0 == key || text::before(key, s[at].0),
    ensures
        at < s.len() && s[at].0 == key ==> with_pair(s, key, value) == s.update(at, (key, value)),
        !(at < s.len() && s[at].0 == key) ==> with_pair(s, key, value) == s.insert(
            at,
            (key, value),
        ),
        ascending(with_pair(s, key, value)),
    decreases s.len(),
{
    text::before_irreflexive(key);
    let present = at < s.len() && s[at].0 == key;
    let r = if present {
        s.update(at, (key, value))
    } else {
        s.insert(at, (key, value))
    };
    assert(ascending(r)) by {
        assert forall|i: int, j: int| 0 <= i < j < r.len() implies text::before(
            #[trigger] r[i].0,
            #[trigger] r[j].0,
        ) by {
            if present {
                assert(r[i].0 == s[i].0);
                assert(r[j].0 == s[j].0);
            } else if j < at {
                assert(text::before(s[i].0, s[j].0));
            } else if j == at {
                assert(text::before(s[i].0, key));
            } else if i < at {
                assert(text::before(s[i].0, s[j - 1].0));
            } else if i == at {
                if j - 1 > at {
                    text::before_transitive(key, s[at].0, s[j - 1].0);
                }
            } else {
                assert(text::before(s[i - 1].0, s[j - 1].0));
            }
        }
    }
    if s.len() == 0 {
        assert(with_pair(s, key, value) =~= r);
    } else if at == 0 {
        if s[0].0 == key {
            assert(with_pair(s, key, value) =~= r);
        } else {
            assert(with_pair(s, key, value) =~= r);
        }
    } else {
        assert(text::before(s[0].0, key));
        if text::before(key, s[0].0) {
            text::before_transitive(key, s[0].0, key);
        }
        let t = s.drop_first();
        assert forall|i: int, j: int| 0 <= i < j < t.len() implies text::before(
            #[trigger] t[i].0,
            #[trigger] t[j].0,
        ) by {
            assert(t[i] == s[i + 1]);
            assert(t[j] == s[j + 1]);
        }
        assert forall|i: int| 0 <= i < at - 1 implies text::before(#[trigger] t[i].0, key) by {
            assert(t[i] == s[i + 1]);
        }
        with_pair_at(t, key, value, at - 1);
        assert(with_pair(s, key, value) =~= r);
    }
}

impl View for EnvMap {
    type V = Seq<Pair>;

    closed spec fn view(&self) -> Seq<Pair> {
        pairs(self.entries@)
    }
}

impl EnvMap {
    #[verifier::type_invariant]
    spec fn sorted(self) -> bool {
        ascending(pairs(self.entries@))
    }

    pub fn new() -> (r: EnvMap)
        ensures
            r@ == Seq::<Pair>::empty(),
            ascending(r@),
    {
        let r = EnvMap { entries: Vec::new() };
        assert(r@ =~= Seq::<Pair>::empty());
        r
    }

    pub fn len(&self) -> (r: usize)
        ensures
            r == self@.len(),
    {
        self.entries.len()
    }

    pub fn is_empty(&self) -> (r: bool)
        ensures
            r == (self@.len() == 0),
    {
        self.entries.len() == 0
    }

    /// The name of a variable, counted in the order of the names.
    pub fn key_at(&self, i: usize) -> (r: &str)
        requires
            i < self@.len(),
        ensures
            r@ == self@[i as int].0,
    {
        self.entries[i].0.as_str()
    }

    /// The value of a variable, counted in the order of the names.
    pub fn value_at(&self, i: usize) -> (r: &str)
        requires
            i < self@.len(),
        ensures
            r@ == self@[i as int].1,
    {
        self.entries[i].1.as_str()
    }

    pub fn get(&self, key: &str) -> (r: Option<&str>)
        ensures
            text::opt_ref(r) == lookup(self@, key@),
    {
        proof {
            use_type_invariant(self);
        }
        let mut i: usize = 0;
        assert(self@.skip(0) =~= self@);
        while i < self.entries.len()
            invariant
                i <= self.entries.len(),
                lookup(self@, key@) == lookup(self@.skip(i as int), key@),
            decreases self.entries.len() - i,
        {
            if text::same(self.entries[i].0.as_str(), key) {
                return Some(self.entries[i].1.as_str());
            }
            assert(self@.skip(i as int).drop_first() =~= self@.skip(i as int + 1));
            i = i + 1;
        }
        None
    }

    pub fn contains_key(&self, key: &str) -> (r: bool)
        ensures
            r == (lookup(self@, key@) is Some),
    {
        self.get(key).is_some()
    }

    /// Sets one variable.
    pub fn insert(&mut self, key: String, value: String)
        ensures
            final(self)@ == with_pair(old(self)@, key@, value@),
            ascending(final(self)@),
    {
        proof {
            use_type_invariant(&*self);
        }
        let mut entries: Vec<(String, String)> = Vec::new();
        std::mem::swap(&mut entries, &mut self.entries);
        let ghost start = pairs(entries@);
        let ghost k = key@;
        let ghost v = value@;
        let mut at: usize = 0;
        while at < entries.len() && text::before_text(entries[at].0.as_str(), key.as_str())
            invariant
                at <= entries.len(),
                start == pairs(entries@),
                k == key@,
                forall|i: int| 0 <= i < at ==> text::before(#[trigger] start[i].0, k),
            decreases entries.len() - at,
        {
            assert(start[at as int].0 == entries@[at as int].0@);
            at = at + 1;
        }
        proof {
            if at < start.len() {
                text::before_total(start[at as int].0, k);
            }
            with_pair_at(start, k, v, at as int);
        }
        if at < entries.len() && text::same(entries[at].0.as_str(), key.as_str()) {
            entries[at] = (key, value);
            assert(pairs(entries@) =~= start.update(at as int, (k, v)));
        } else {
            entries.insert(at, (key, value));
            assert(pairs(entries@) =~= start.insert(at as int, (k, v)));
        }
        self.entries = entries;
    }

    /// A copy of all variables.
    pub fn copy(&self) -> (r: EnvMap)
        ensures
            r@ == self@,
            ascending(r@),
    {
        proof {
            use_type_invariant(self);
        }
        let mut entries: Vec<(String, String)> = Vec::new();
        let mut i: usize = 0;
        while i < self.entries.len()
            invariant
                i <= self.entries.len(),
                entries.len() == i,
                pairs(entries@) == self@.take(i as int),
            decreases self.entries.len() - i,
        {
            let ghost done = entries@;
            let entry = (self.entries[i].0.clone(), self.entries[i].1.clone());
            entries.push(entry);
            i = i + 1;
            assert(pairs(entries@) =~= pairs(done).push((entry.0@, entry.1@)));
            assert(self@[i - 1] == (entry.0@, entry.1@));
            assert(pairs(entries@) =~= self@.take(i as int));
        }
        assert(pairs(entries@) =~= self@);
        EnvMap { entries }
    }
}

} // verus!
