//! Adapter properties: a map from names to texts, kept in the order of the names.

use vstd::prelude::*;
use vstd::string::*;

use crate::text::{bool_text, bool_to_text, chars_of, decimal, same_text, text_of, u32_to_text};

verus! {

/// Whether `a` comes before `b` in the order of the code points, the shorter of two first where
/// one begins with the other.
pub open spec fn precedes(a: Seq<char>, b: Seq<char>) -> bool
    decreases a.len(),
{
    if b.len() == 0 {
        false
    } else if a.len() == 0 {
        true
    } else if a[0] != b[0] {
        a[0] < b[0]
    } else {
        precedes(a.drop_first(), b.drop_first())
    }
}

/// No text comes before itself.
pub proof fn precedes_is_irreflexive(a: Seq<char>)
    ensures
        !precedes(a, a),
    decreases a.len(),
{
    if a.len() > 0 {
        precedes_is_irreflexive(a.drop_first());
    }
}

/// What comes before a text comes before all that follows it.
pub proof fn precedes_is_transitive(a: Seq<char>, b: Seq<char>, c: Seq<char>)
    requires
        precedes(a, b),
        precedes(b, c),
    ensures
        precedes(a, c),
    decreases a.len(),
{
    if a.len() > 0 && a[0] == b[0] && b[0] == c[0] {
        precedes_is_transitive(a.drop_first(), b.drop_first(), c.drop_first());
    }
}

/// Of two texts that differ one comes before the other.
pub proof fn precedes_is_total(a: Seq<char>, b: Seq<char>)
    ensures
        a == b || precedes(a, b) || precedes(b, a),
    decreases a.len(),
{
    if a.len() > 0 && b.len() > 0 && a[0] == b[0] {
        precedes_is_total(a.drop_first(), b.drop_first());
        if a.drop_first() == b.drop_first() {
            assert(a =~= seq![a[0]] + a.drop_first());
            assert(b =~= seq![b[0]] + b.drop_first());
        }
    } else if a.len() == 0 && b.len() == 0 {
        assert(a =~= b);
    }
}

/// Whether `a` comes before `b`.
pub fn comes_before(a: &str, b: &str) -> (r: bool)
    ensures
        r == precedes(a@, b@),
{
    let x: Vec<char> = chars_of(a);
    let y: Vec<char> = chars_of(b);
    let mut i: usize = 0;
    assert(x@.skip(0) =~= a@);
    assert(y@.skip(0) =~= b@);
    while i < x.len() && i < y.len()
        invariant
            i <= x.len(),
            i <= y.len(),
            precedes(a@, b@) == precedes(x@.skip(i as int), y@.skip(i as int)),
        decreases x.len() - i,
    {
        if x[i] != y[i] {
            return x[i] < y[i];
        }
        assert(x@.skip(i as int).drop_first() =~= x@.skip(i + 1));
        assert(y@.skip(i as int).drop_first() =~= y@.skip(i + 1));
        i += 1;
    }
    i < y.len()
}

/// One named property.
#[derive(Debug)]
pub struct Property {
    pub name: String,
    pub value: String,
}

/// Properties by name. No name occurs twice, and the names stand in ascending order.
#[derive(Debug)]
pub struct AdapterProperties {
    entries: Vec<Property>,
}

pub open spec fn ascending(entries: Seq<Property>) -> bool {
    forall|i: int, j: int|
        0 <= i < j < entries.len() ==> precedes((#[trigger] entries[i]).name@, (#[trigger] entries[j]).name@)
}

/// Where the name stands among the entries.
spec fn position(entries: Seq<Property>, name: Seq<char>) -> int {
    choose|i: int| 0 <= i < entries.len() && (#[trigger] entries[i]).name@ == name
}

spec fn has_name(entries: Seq<Property>, name: Seq<char>) -> bool {
    exists|i: int| 0 <= i < entries.len() && (#[trigger] entries[i]).name@ == name
}

spec fn as_map(entries: Seq<Property>) -> Map<Seq<char>, Seq<char>> {
    Map::new(
        |name: Seq<char>| has_name(entries, name),
        |name: Seq<char>| entries[position(entries, name)].value@,
    )
}

impl View for AdapterProperties {
    type V = Map<Seq<char>, Seq<char>>;

    closed spec fn view(&self) -> Map<Seq<char>, Seq<char>> {
        as_map(self.entries@)
    }
}

/// In an ascending sequence a name has one place.
proof fn lemma_position(entries: Seq<Property>, i: int)
    requires
        ascending(entries),
        0 <= i < entries.len(),
    ensures
        has_name(entries, entries[i].name@),
        position(entries, entries[i].name@) == i,
{
    let j = position(entries, entries[i].name@);
    assert(has_name(entries, entries[i].name@));
    if j < i {
        assert(precedes(entries[j].name@, entries[i].name@));
        precedes_is_irreflexive(entries[i].name@);
    } else if i < j {
        assert(precedes(entries[i].name@, entries[j].name@));
        precedes_is_irreflexive(entries[i].name@);
    }
}

/// `properties` with `value` under `name`, where there is a value.
pub open spec fn with_property(
    properties: Map<Seq<char>, Seq<char>>,
    name: Seq<char>,
    value: Option<Seq<char>>,
) -> Map<Seq<char>, Seq<char>> {
    match value {
        Some(value) => properties.insert(name, value),
        None => properties,
    }
}

/// The text of an optional flag.
pub open spec fn flag_text(flag: Option<bool>) -> Option<Seq<char>> {
    match flag {
        Some(flag) => Some(bool_text(flag)),
        None => None,
    }
}

/// The text of an optional number.
pub open spec fn number_text(number: Option<u32>) -> Option<Seq<char>> {
    match number {
        Some(number) => Some(decimal(number as nat)),
        None => None,
    }
}

/// Two ascending sequences that give each name the same value are the same map.
proof fn lemma_same_map(new: Seq<Property>, old_map: Map<Seq<char>, Seq<char>>)
    requires
        ascending(new),
        forall|i: int|
            0 <= i < new.len() ==> old_map.contains_key((#[trigger] new[i]).name@)
                && old_map[new[i].name@] == new[i].value@,
        forall|name: Seq<char>| #[trigger] old_map.contains_key(name) ==> has_name(new, name),
    ensures
        as_map(new) == old_map,
{
    assert forall|name: Seq<char>| #[trigger] as_map(new).contains_key(name) implies old_map.contains_key(
        name,
    ) && as_map(new)[name] == old_map[name] by {
        let i = position(new, name);
        assert(new[i].name@ == name);
        lemma_position(new, i);
    }
    assert(as_map(new) =~= old_map);
}

impl AdapterProperties {
    #[verifier::type_invariant]
    spec fn well_formed(self) -> bool {
        ascending(self.entries@)
    }

    /// No properties.
    pub fn new() -> (r: Self)
        ensures
            r@ == Map::<Seq<char>, Seq<char>>::empty(),
    {
        let r: AdapterProperties = AdapterProperties { entries: Vec::new() };
        assert(r@ =~= Map::<Seq<char>, Seq<char>>::empty());
        r
    }

    /// The first place whose name does not come before `name`.
    fn place(entries: &Vec<Property>, name: &str) -> (at: usize)
        requires
            ascending(entries@),
        ensures
            at <= entries.len(),
            forall|i: int| 0 <= i < at ==> precedes((#[trigger] entries[i]).name@, name@),
            at < entries.len() ==> !precedes(entries[at as int].name@, name@),
    {
        let mut at: usize = 0;
        while at < entries.len() && comes_before(entries[at].name.as_str(), name)
            invariant
                at <= entries.len(),
                forall|i: int| 0 <= i < at ==> precedes((#[trigger] entries[i]).name@, name@),
            decreases entries.len() - at,
        {
            at += 1;
        }
        at
    }

    /// Where `name` stands, and that it stands nowhere else.
    proof fn lemma_place(entries: Seq<Property>, name: Seq<char>, at: int)
        requires
            ascending(entries),
            0 <= at <= entries.len(),
            forall|i: int| 0 <= i < at ==> precedes((#[trigger] entries[i]).name@, name),
            at < entries.len() ==> !precedes(entries[at].name@, name),
        ensures
            forall|i: int| 0 <= i < entries.len() && i != at ==> (#[trigger] entries[i]).name@ != name,
            forall|i: int|
                at < i < entries.len() || (i == at < entries.len() && entries[at].name@ != name)
                    ==> precedes(name, (#[trigger] entries[i]).name@),
    {
        precedes_is_irreflexive(name);
        if at < entries.len() {
            precedes_is_total(entries[at].name@, name);
            assert forall|i: int| at < i < entries.len() implies precedes(
                name,
                (#[trigger] entries[i]).name@,
            ) by {
                assert(precedes(entries[at].name@, entries[i].name@));
                if entries[at].name@ != name {
                    precedes_is_transitive(name, entries[at].name@, entries[i].name@);
                }
            }
        }
    }

    /// Gives `name` the value `value`, in place of what it had.
    pub fn insert(&mut self, name: String, value: String)
        ensures
            final(self)@ == old(self)@.insert(name@, value@),
    {
        proof {
            use_type_invariant(&*self);
        }
        let mut entries: Vec<Property> = Vec::new();
        std::mem::swap(&mut entries, &mut self.entries);
        let ghost before = entries@;
        let ghost old_map = as_map(before);
        let ghost (n, v) = (name@, value@);
        let at: usize = Self::place(&entries, name.as_str());
        proof {
            Self::lemma_place(before, n, at as int);
        }
        if at < entries.len() && same_text(entries[at].name.as_str(), name.as_str()) {
            entries.set(at, Property { name, value });
            assert(ascending(entries@));
        } else {
            entries.insert(at, Property { name, value });
            assert(ascending(entries@));
        }
        proof {
            let new_map = old_map.insert(n, v);
            let after = entries@;
            assert(after[at as int].name@ == n && after[at as int].value@ == v);
            assert forall|i: int| 0 <= i < after.len() implies new_map.contains_key(
                (#[trigger] after[i]).name@,
            ) && new_map[after[i].name@] == after[i].value@ by {
                if i != at {
                    let j = if i < at || after.len() == before.len() { i } else { i - 1 };
                    assert(after[i] == before[j]);
                    lemma_position(before, j);
                    lemma_position(after, i);
                    lemma_position(after, at as int);
                }
            }
            assert forall|m: Seq<char>| #[trigger] new_map.contains_key(m) implies has_name(after, m) by {
                if m == n {
                    lemma_position(after, at as int);
                } else {
                    let j = position(before, m);
                    assert(before[j].name@ == m);
                    let i = if j < at || after.len() == before.len() { j } else { j + 1 };
                    assert(after[i] == before[j]);
                }
            }
            lemma_same_map(after, new_map);
        }
        self.entries = entries;
    }

    /// Gives `name` the value `value`, where there is one.
    pub fn insert_text(&mut self, name: &str, value: Option<String>)
        ensures
            final(self)@ == with_property(old(self)@, name@, text_of(value)),
    {
        if let Some(value) = value {
            self.insert(name.to_owned(), value);
        }
    }

    /// Gives `name` the text of `flag`, where there is one.
    pub fn insert_flag(&mut self, name: &str, flag: Option<bool>)
        ensures
            final(self)@ == with_property(old(self)@, name@, flag_text(flag)),
    {
        if let Some(flag) = flag {
            self.insert(name.to_owned(), bool_to_text(flag));
        }
    }

    /// Gives `name` the text of `number`, where there is one.
    pub fn insert_number(&mut self, name: &str, number: Option<u32>)
        ensures
            final(self)@ == with_property(old(self)@, name@, number_text(number)),
    {
        if let Some(number) = number {
            self.insert(name.to_owned(), u32_to_text(number));
        }
    }

    /// The value of `name`, where it has one.
    pub fn get(&self, name: &str) -> (r: Option<&String>)
        ensures
            match r {
                Some(value) => self@.contains_key(name@) && self@[name@] == value@,
                None => !self@.contains_key(name@),
            },
    {
        proof {
            use_type_invariant(&*self);
        }
        let at: usize = Self::place(&self.entries, name);
        proof {
            Self::lemma_place(self.entries@, name@, at as int);
        }
        if at < self.entries.len() && same_text(self.entries[at].name.as_str(), name) {
            proof {
                lemma_position(self.entries@, at as int);
            }
            Some(&self.entries[at].value)
        } else {
            None
        }
    }

    /// Whether `name` has a value.
    pub fn contains_key(&self, name: &str) -> (r: bool)
        ensures
            r == self@.contains_key(name@),
    {
        self.get(name).is_some()
    }

    /// Whether there is no property.
    pub fn is_empty(&self) -> (r: bool)
        ensures
            r == (self@ == Map::<Seq<char>, Seq<char>>::empty()),
    {
        proof {
            if self.entries@.len() == 0 {
                assert(self@ =~= Map::<Seq<char>, Seq<char>>::empty());
            } else {
                assert(has_name(self.entries@, self.entries@[0].name@));
                assert(self@.contains_key(self.entries@[0].name@));
            }
        }
        self.entries.len() == 0
    }

    /// The properties, in the order of their names.
    pub fn entries(&self) -> (r: &Vec<Property>)
        ensures
            ascending(r@),
            forall|i: int|
                0 <= i < r.len() ==> self@.contains_key((#[trigger] r[i]).name@) && self@[r[i].name@]
                    == r[i].value@,
            forall|name: Seq<char>| #[trigger]
                self@.contains_key(name) ==> exists|i: int| 0 <= i < r.len() && (#[trigger] r[i]).name@ == name,
    {
        proof {
            use_type_invariant(&*self);
            assert forall|i: int| 0 <= i < self.entries.len() implies self@.contains_key(
                (#[trigger] self.entries[i]).name@,
            ) && self@[self.entries[i].name@] == self.entries[i].value@ by {
                lemma_position(self.entries@, i);
            }
        }
        &self.entries
    }
}

} // verus!
