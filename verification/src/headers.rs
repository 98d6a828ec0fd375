//! The header fields of a message: names and values, each name at most once.

use vstd::prelude::*;

use crate::text::text_equal;

verus! {

/// A header field as text: its name and its value.
pub type FieldText = (Seq<char>, Seq<char>);

/// The mapping that results from setting the fields one after the other: of several fields with
/// one name the last counts.
pub open spec fn collected(fields: Seq<FieldText>) -> Map<Seq<char>, Seq<char>>
    decreases fields.len(),
{
    if fields.len() == 0 {
        Map::empty()
    } else {
        collected(fields.drop_last()).insert(fields.last().0, fields.last().1)
    }
}

/// No two of the fields have the same name.
pub open spec fn distinct_names(fields: Seq<FieldText>) -> bool {
    forall|i: int, j: int|
        0 <= i < j < fields.len() ==> (#[trigger] fields[i]).0 != (#[trigger] fields[j]).0
}

/// The header fields of a message, listed in the order in which their names were first set.
#[derive(Debug)]
pub struct HeaderMap {
    entries: Vec<(String, String)>,
}

impl View for HeaderMap {
    type V = Map<Seq<char>, Seq<char>>;

    open spec fn view(&self) -> Map<Seq<char>, Seq<char>> {
        collected(self.listing())
    }
}

impl HeaderMap {
    /// The fields in the order in which they are listed.
    pub closed spec fn listing(&self) -> Seq<FieldText> {
        self.entries@.map_values(|e: (String, String)| (e.0@, e.1@))
    }

    #[verifier::type_invariant]
    spec fn well_formed(&self) -> bool {
        distinct_names(self.listing())
    }

    /// No fields.
    pub fn new() -> (map: HeaderMap)
        ensures
            map.listing() == Seq::<FieldText>::empty(),
            map@ == Map::<Seq<char>, Seq<char>>::empty(),
    {
        let map = HeaderMap { entries: Vec::new() };
        assert(map.listing() =~= Seq::<FieldText>::empty());
        map
    }

    /// The number of fields.
    pub fn len(&self) -> (n: usize)
        ensures
            n == self.listing().len(),
            n == self@.len(),
            distinct_names(self.listing()),
    {
        proof {
            use_type_invariant(self);
            lemma_collected_size(self.listing());
        }
        self.entries.len()
    }

    /// The name and the value that stand at a place of the listing.
    pub fn entry(&self, i: usize) -> (field: (&String, &String))
        requires
            i < self.listing().len(),
        ensures
            (field.0@, field.1@) == self.listing()[i as int],
    {
        let field = &self.entries[i];
        (&field.0, &field.1)
    }

    /// Where in the listing a name stands, if it is there.
    fn position(&self, name: &str) -> (place: Option<usize>)
        ensures
            match place {
                Some(i) => i < self.listing().len() && self.listing()[i as int].0 == name@,
                None => forall|i: int|
                    0 <= i < self.listing().len() ==> (#[trigger] self.listing()[i]).0 != name@,
            },
    {
        let mut i: usize = 0;
        while i < self.entries.len()
            invariant
                i <= self.entries@.len(),
                self.entries@.len() == self.listing().len(),
                forall|j: int| 0 <= j < i ==> (#[trigger] self.listing()[j]).0 != name@,
            decreases self.entries@.len() - i,
        {
            if text_equal(self.entries[i].0.as_str(), name) {
                return Some(i);
            }
            assert(self.listing()[i as int].0 != name@);
            i += 1;
        }
        None
    }

    /// The value that is set for a name, if one is.
    pub fn get(&self, name: &str) -> (value: Option<&String>)
        ensures
            value is Some == self@.contains_key(name@),
            value matches Some(v) ==> v@ == self@[name@],
    {
        proof {
            use_type_invariant(self);
        }
        match self.position(name) {
            Some(i) => {
                proof {
                    lemma_collected_at(self.listing(), i as int);
                }
                Some(&self.entries[i].1)
            },
            None => {
                proof {
                    lemma_collected_keys(self.listing(), name@);
                }
                None
            },
        }
    }

    /// Tells whether a value is set for a name.
    pub fn contains_key(&self, name: &str) -> (found: bool)
        ensures
            found == self@.contains_key(name@),
    {
        self.get(name).is_some()
    }

    /// Sets the value of a name. A value set for that name before is replaced, in its place of
    /// the listing; a new name is listed last.
    pub fn insert(&mut self, name: String, value: String)
        ensures
            final(self)@ == old(self)@.insert(name@, value@),
            final(self).listing() == set_field(old(self).listing(), name@, value@),
    {
        proof {
            use_type_invariant(&*self);
        }
        let ghost before = self.listing();
        let place = self.position(name.as_str());
        let ghost key = name@;
        let ghost text = value@;
        let mut entries: Vec<(String, String)> = Vec::new();
        std::mem::swap(&mut entries, &mut self.entries);
        match place {
            Some(i) => {
                entries.set(i, (name, value));
                let ghost after = HeaderMap { entries }.listing();
                proof {
                    assert(after =~= before.update(i as int, (key, text)));
                    lemma_set_existing(before, i as int, text);
                }
            },
            None => {
                entries.push((name, value));
                let ghost after = HeaderMap { entries }.listing();
                proof {
                    assert(after =~= before.push((key, text)));
                    assert(after.drop_last() =~= before);
                }
            },
        }
        self.entries = entries;
    }
}

impl Clone for HeaderMap {
    fn clone(&self) -> (copy: HeaderMap)
        ensures
            copy.listing() == self.listing(),
            copy@ == self@,
    {
        proof {
            use_type_invariant(self);
        }
        let mut entries: Vec<(String, String)> = Vec::new();
        let mut i: usize = 0;
        while i < self.entries.len()
            invariant
                i <= self.entries@.len(),
                entries@ =~= self.entries@.take(i as int),
            decreases self.entries@.len() - i,
        {
            let field = &self.entries[i];
            entries.push((field.0.clone(), field.1.clone()));
            i += 1;
        }
        assert(entries@ =~= self.entries@);
        HeaderMap { entries }
    }
}

/// The listing after a name has been given a value.
pub open spec fn set_field(
    fields: Seq<FieldText>,
    name: Seq<char>,
    value: Seq<char>,
) -> Seq<FieldText> {
    if exists|i: int| 0 <= i < fields.len() && (#[trigger] fields[i]).0 == name {
        let i = choose|i: int| 0 <= i < fields.len() && (#[trigger] fields[i]).0 == name;
        fields.update(i, (name, value))
    } else {
        fields.push((name, value))
    }
}

/// A name has a value exactly where some field has that name.
pub proof fn lemma_collected_keys(fields: Seq<FieldText>, name: Seq<char>)
    ensures
        collected(fields).contains_key(name) <==> exists|i: int|
            0 <= i < fields.len() && (#[trigger] fields[i]).0 == name,
    decreases fields.len(),
{
    if fields.len() > 0 {
        let rest = fields.drop_last();
        lemma_collected_keys(rest, name);
        if exists|i: int| 0 <= i < rest.len() && (#[trigger] rest[i]).0 == name {
            let i = choose|i: int| 0 <= i < rest.len() && (#[trigger] rest[i]).0 == name;
            assert(fields[i].0 == name);
        }
        if exists|i: int| 0 <= i < fields.len() && (#[trigger] fields[i]).0 == name {
            let i = choose|i: int| 0 <= i < fields.len() && (#[trigger] fields[i]).0 == name;
            if i < rest.len() {
                assert(rest[i].0 == name);
            } else {
                assert(fields.last().0 == name);
            }
        }
        if fields.last().0 == name {
            assert(fields[fields.len() - 1].0 == name);
        }
    }
}

/// Where names are distinct, each listed value is the value of its name.
pub proof fn lemma_collected_at(fields: Seq<FieldText>, i: int)
    requires
        distinct_names(fields),
        0 <= i < fields.len(),
    ensures
        collected(fields).contains_key(fields[i].0),
        collected(fields)[fields[i].0] == fields[i].1,
    decreases fields.len(),
{
    if i < fields.len() - 1 {
        let rest = fields.drop_last();
        assert(distinct_names(rest));
        lemma_collected_at(rest, i);
        assert(fields[i].0 != fields[fields.len() - 1].0);
    }
}

/// Where names are distinct, there are as many mapped names as fields.
pub proof fn lemma_collected_size(fields: Seq<FieldText>)
    requires
        distinct_names(fields),
    ensures
        collected(fields).dom().finite(),
        collected(fields).len() == fields.len(),
    decreases fields.len(),
{
    if fields.len() > 0 {
        let rest = fields.drop_last();
        assert(distinct_names(rest));
        lemma_collected_size(rest);
        lemma_collected_keys(rest, fields.last().0);
        assert(!collected(rest).contains_key(fields.last().0)) by {
            assert forall|i: int| 0 <= i < rest.len() implies (#[trigger] rest[i]).0
                != fields.last().0 by {
                assert(fields[i].0 != fields[fields.len() - 1].0);
            }
        }
    }
}

/// Replacing the value of a listed name keeps the names distinct, sets that name, and is what
/// `set_field` says.
proof fn lemma_set_existing(fields: Seq<FieldText>, i: int, value: Seq<char>)
    requires
        distinct_names(fields),
        0 <= i < fields.len(),
    ensures
        distinct_names(fields.update(i, (fields[i].0, value))),
        collected(fields.update(i, (fields[i].0, value))) == collected(fields).insert(
            fields[i].0,
            value,
        ),
        set_field(fields, fields[i].0, value) == fields.update(i, (fields[i].0, value)),
    decreases fields.len(),
{
    let name = fields[i].0;
    let changed = fields.update(i, (name, value));
    assert forall|a: int, b: int| 0 <= a < b < changed.len() implies (#[trigger] changed[a]).0 != (
    #[trigger] changed[b]).0 by {
        assert(fields[a].0 != fields[b].0);
    }
    let j = choose|j: int| 0 <= j < fields.len() && (#[trigger] fields[j]).0 == name;
    assert(0 <= j < fields.len() && fields[j].0 == name);
    assert(i == j) by {
        if i < j {
            assert(fields[i].0 != fields[j].0);
        } else if j < i {
            assert(fields[j].0 != fields[i].0);
        }
    }
    let rest = fields.drop_last();
    if i == fields.len() - 1 {
        assert(changed.drop_last() =~= rest);
        assert(collected(changed) =~= collected(fields).insert(name, value));
    } else {
        assert(distinct_names(rest));
        lemma_set_existing(rest, i, value);
        assert(changed.drop_last() =~= rest.update(i, (name, value)));
        assert(fields[i].0 != fields[fields.len() - 1].0);
        assert(collected(changed) =~= collected(fields).insert(name, value));
    }
}

} // verus!
