//! A map from names to values, and the order of names.

use vstd::prelude::*;
use vstd::string::*;

use crate::text::same_text;

verus! {

/// `a` comes before `b` in the order of their characters.
pub open spec fn comes_before(a: Seq<char>, b: Seq<char>) -> bool
    decreases a.len(),
{
    if b.len() == 0 {
        false
    } else if a.len() == 0 {
        true
    } else if a[0] != b[0] {
        a[0] < b[0]
    } else {
        comes_before(a.drop_first(), b.drop_first())
    }
}

/// Of two different texts one comes before the other.
pub proof fn texts_are_ordered(a: Seq<char>, b: Seq<char>)
    ensures
        a == b || comes_before(a, b) || comes_before(b, a),
        !(comes_before(a, b) && comes_before(b, a)),
        !comes_before(a, a),
    decreases a.len(),
{
    if a.len() > 0 {
        if b.len() > 0 {
            texts_are_ordered(a.drop_first(), b.drop_first());
            if a[0] == b[0] && a.drop_first() == b.drop_first() {
                assert(a =~= seq![a[0]] + a.drop_first());
                assert(b =~= seq![b[0]] + b.drop_first());
            }
        }
        texts_are_ordered(a.drop_first(), a.drop_first());
    } else if b.len() == 0 {
        assert(a =~= b);
    }
}

/// The order of texts is transitive.
pub proof fn order_is_transitive(a: Seq<char>, b: Seq<char>, c: Seq<char>)
    requires
        comes_before(a, b),
        comes_before(b, c),
    ensures
        comes_before(a, c),
    decreases a.len(),
{
    if a.len() > 0 && a[0] == b[0] && b[0] == c[0] {
        order_is_transitive(a.drop_first(), b.drop_first(), c.drop_first());
    }
}

/// Whether `a` comes before `b`.
pub fn is_before(a: &str, b: &str) -> (r: bool)
    ensures
        r == comes_before(a@, b@),
{
    let a_len = a.unicode_len();
    let b_len = b.unicode_len();
    let mut i: usize = 0;
    proof {
        assert(a@.skip(0) =~= a@);
        assert(b@.skip(0) =~= b@);
    }
    while i < a_len && i < b_len
        invariant
            a_len == a@.len(),
            b_len == b@.len(),
            i <= a_len,
            i <= b_len,
            comes_before(a@, b@) == comes_before(a@.skip(i as int), b@.skip(i as int)),
        decreases a_len - i,
    {
        let x = a.get_char(i);
        let y = b.get_char(i);
        proof {
            assert(a@.skip(i as int)[0] == x);
            assert(b@.skip(i as int)[0] == y);
            assert(a@.skip(i as int).drop_first() =~= a@.skip(i + 1));
            assert(b@.skip(i as int).drop_first() =~= b@.skip(i + 1));
        }
        if x != y {
            return x < y;
        }
        i = i + 1;
    }
    i < b_len
}

/// What the first `i + 1` items hold beyond the first `i`.
pub proof fn one_more_item<A>(items: Seq<A>, i: int, x: A)
    requires
        0 <= i < items.len(),
    ensures
        items.take(i + 1).contains(x) == (items.take(i).contains(x) || x == items[i]),
{
    let longer = items.take(i + 1);
    let shorter = items.take(i);
    if longer.contains(x) {
        let k = choose|k: int| 0 <= k < longer.len() && longer[k] == x;
        if k < i {
            assert(shorter[k] == x);
        }
    }
    if shorter.contains(x) {
        let k = choose|k: int| 0 <= k < shorter.len() && shorter[k] == x;
        assert(longer[k] == x);
    }
    if x == items[i] {
        assert(longer[i] == x);
    }
}

/// Values under names that occur once.
#[derive(Debug)]
pub struct NameMap<V> {
    entries: Vec<(String, V)>,
}

/// The names of a list of entries.
spec fn names_of<V>(entries: Seq<(String, V)>) -> Seq<Seq<char>> {
    entries.map_values(|entry: (String, V)| entry.0@)
}

spec fn map_of<V>(entries: Seq<(String, V)>) -> Map<Seq<char>, V> {
    Map::new(
        |name: Seq<char>| names_of(entries).contains(name),
        |name: Seq<char>| entries[names_of(entries).index_of(name)].1,
    )
}

impl<V> View for NameMap<V> {
    type V = Map<Seq<char>, V>;

    closed spec fn view(&self) -> Map<Seq<char>, V> {
        map_of(self.entries@)
    }
}

impl<V> NameMap<V> {
    #[verifier::type_invariant]
    spec fn names_occur_once(self) -> bool {
        names_of(self.entries@).no_duplicates()
    }

    /// The names in the order in which the map is walked.
    pub closed spec fn names(self) -> Seq<Seq<char>> {
        names_of(self.entries@)
    }

    /// An empty map.
    pub fn new() -> (r: NameMap<V>)
        ensures
            r@ == Map::<Seq<char>, V>::empty(),
    {
        let r = NameMap { entries: Vec::new() };
        proof {
            assert(r@ =~= Map::<Seq<char>, V>::empty());
        }
        r
    }

    fn position(&self, name: &str) -> (r: Option<usize>)
        ensures
            match r {
                Some(i) => i < self.entries@.len() && self.entries@[i as int].0@ == name@ && i
                    == names_of(self.entries@).index_of(name@) && self@.contains_key(name@)
                    && self@[name@] == self.entries@[i as int].1,
                None => !self@.contains_key(name@),
            },
    {
        let mut i: usize = 0;
        while i < self.entries.len()
            invariant
                i <= self.entries@.len(),
                forall|j: int| 0 <= j < i ==> self.entries@[j].0@ != name@,
            decreases self.entries@.len() - i,
        {
            if same_text(self.entries[i].0.as_str(), name) {
                proof {
                    use_type_invariant(self);
                    assert(names_of(self.entries@)[i as int] == name@);
                }
                return Some(i);
            }
            i = i + 1;
        }
        None
    }

    /// Puts a value under a name, in place of the one that is there.
    pub fn insert(&mut self, name: String, value: V)
        ensures
            final(self)@ == old(self)@.insert(name@, value),
    {
        let ghost before = self.entries@;
        proof {
            use_type_invariant(&*self);
        }
        let found = self.position(name.as_str());
        let mut taken: NameMap<V> = NameMap::new();
        core::mem::swap(self, &mut taken);
        let mut entries = taken.entries;
        match found {
            Some(i) => {
                proof {
                    lemma_replaced(before, i as int, (name, value));
                }
                entries[i] = (name, value);
            },
            None => {
                proof {
                    lemma_pushed(before, (name, value));
                }
                entries.push((name, value));
            },
        }
        *self = NameMap { entries };
    }

    /// Takes the value under a name out of the map.
    pub fn remove(&mut self, name: &str) -> (r: Option<V>)
        ensures
            match r {
                Some(value) => {
                    &&& old(self)@.contains_key(name@)
                    &&& value == old(self)@[name@]
                    &&& final(self)@ == old(self)@.remove(name@)
                },
                None => !old(self)@.contains_key(name@) && final(self)@ == old(self)@,
            },
    {
        proof {
            use_type_invariant(&*self);
        }
        match self.position(name) {
            Some(i) => {
                proof {
                    lemma_removed(self.entries@, i as int);
                }
                let mut taken: NameMap<V> = NameMap::new();
                core::mem::swap(self, &mut taken);
                let mut entries = taken.entries;
                let (_, value) = entries.remove(i);
                *self = NameMap { entries };
                Some(value)
            },
            None => None,
        }
    }

    /// The value under a name.
    pub fn get(&self, name: &str) -> (r: Option<&V>)
        ensures
            match r {
                Some(value) => self@.contains_key(name@) && *value == self@[name@],
                None => !self@.contains_key(name@),
            },
    {
        match self.position(name) {
            Some(i) => Some(&self.entries[i].1),
            None => None,
        }
    }

    /// The number of names.
    pub fn len(&self) -> (n: usize)
        ensures
            n == self.names().len(),
            self.names().no_duplicates(),
            self.names().to_set() == self@.dom(),
    {
        proof {
            use_type_invariant(self);
            assert(self.names().to_set() =~= self@.dom());
        }
        self.entries.len()
    }

    /// One name and its value, by the order in which the map is walked.
    pub fn entry(&self, i: usize) -> (r: (&String, &V))
        requires
            i < self.names().len(),
        ensures
            r.0@ == self.names()[i as int],
            self@.contains_key(r.0@),
            *r.1 == self@[r.0@],
    {
        proof {
            use_type_invariant(self);
            let names = names_of(self.entries@);
            assert(names.contains(names[i as int]));
            assert(names.index_of(names[i as int]) == i);
        }
        (&self.entries[i].0, &self.entries[i].1)
    }
}

proof fn lemma_pushed<V>(entries: Seq<(String, V)>, entry: (String, V))
    requires
        names_of(entries).no_duplicates(),
        !map_of(entries).contains_key(entry.0@),
    ensures
        names_of(entries.push(entry)).no_duplicates(),
        map_of(entries.push(entry)) == map_of(entries).insert(entry.0@, entry.1),
{
    let after = entries.push(entry);
    assert(names_of(after) =~= names_of(entries).push(entry.0@));
    assert(names_of(after)[entries.len() as int] == entry.0@);
    assert forall|name: Seq<char>| names_of(after).contains(name) == (name == entry.0@
        || names_of(entries).contains(name)) by {
        if names_of(entries).contains(name) {
            let i = choose|i: int| 0 <= i < entries.len() && names_of(entries)[i] == name;
            assert(names_of(after)[i] == name);
        }
    }
    assert forall|name: Seq<char>| #[trigger] map_of(after).contains_key(name) implies map_of(
        after,
    )[name] == map_of(entries).insert(entry.0@, entry.1)[name] by {
        if name != entry.0@ {
            let i = names_of(entries).index_of(name);
            assert(names_of(entries).contains(name));
            assert(names_of(after)[i] == name);
            assert(names_of(after).index_of(name) == i);
        } else {
            assert(names_of(after).index_of(name) == entries.len());
        }
    }
    assert(map_of(after) =~= map_of(entries).insert(entry.0@, entry.1));
}

proof fn lemma_replaced<V>(entries: Seq<(String, V)>, i: int, entry: (String, V))
    requires
        names_of(entries).no_duplicates(),
        0 <= i < entries.len(),
        entries[i].0@ == entry.0@,
    ensures
        names_of(entries.update(i, entry)).no_duplicates(),
        map_of(entries.update(i, entry)) == map_of(entries).insert(entry.0@, entry.1),
{
    let after = entries.update(i, entry);
    assert(names_of(after) =~= names_of(entries));
    assert(names_of(entries)[i] == entry.0@);
    assert(names_of(entries).index_of(entry.0@) == i);
    assert forall|name: Seq<char>| #[trigger] map_of(after).contains_key(name) implies map_of(
        after,
    )[name] == map_of(entries).insert(entry.0@, entry.1)[name] by {
        let j = names_of(entries).index_of(name);
        assert(names_of(entries).contains(name));
        assert(names_of(entries)[j] == name);
    }
    assert(map_of(after) =~= map_of(entries).insert(entry.0@, entry.1));
}

proof fn lemma_removed<V>(entries: Seq<(String, V)>, i: int)
    requires
        names_of(entries).no_duplicates(),
        0 <= i < entries.len(),
    ensures
        names_of(entries.remove(i)).no_duplicates(),
        map_of(entries.remove(i)) == map_of(entries).remove(entries[i].0@),
{
    let after = entries.remove(i);
    let name_i = entries[i].0@;
    assert(names_of(entries)[i] == name_i);
    assert forall|j: int| 0 <= j < after.len() implies #[trigger] names_of(after)[j] == (if j < i {
        names_of(entries)[j]
    } else {
        names_of(entries)[j + 1]
    }) by {}
    assert(names_of(after).no_duplicates());
    assert forall|name: Seq<char>| names_of(after).contains(name) == (name != name_i && names_of(
        entries,
    ).contains(name)) by {
        if names_of(after).contains(name) {
            let j = choose|j: int| 0 <= j < after.len() && names_of(after)[j] == name;
            let k = if j < i { j } else { j + 1 };
            assert(names_of(entries)[k] == name);
        }
        if name != name_i && names_of(entries).contains(name) {
            let k = choose|k: int| 0 <= k < entries.len() && names_of(entries)[k] == name;
            let j = if k < i { k } else { k - 1 };
            assert(names_of(after)[j] == name);
        }
    }
    assert forall|name: Seq<char>| #[trigger] map_of(after).contains_key(name) implies map_of(
        after,
    )[name] == map_of(entries)[name] by {
        let j = names_of(after).index_of(name);
        assert(names_of(after).contains(name));
        assert(names_of(after)[j] == name);
        let k = if j < i { j } else { j + 1 };
        assert(names_of(entries)[k] == name);
        assert(names_of(entries).index_of(name) == k);
    }
    assert(map_of(after) =~= map_of(entries).remove(name_i));
}

} // verus!
