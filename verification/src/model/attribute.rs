//! The attributes of a character.

use crate::text::{chars_of, same_text};
use vstd::prelude::*;
use vstd::std_specs::cmp::PartialEqSpecImpl;

verus! {

/// The value of one attribute.
#[derive(Clone, Copy, Debug, PartialEq, Eq, Structural)]
pub struct Attribute {
    pub level: u16,
}

impl View for Attribute {
    type V = Attribute;

    open spec fn view(&self) -> Attribute {
        *self
    }
}

/// One line of an attribute table.
#[derive(Clone, Debug)]
struct Reading {
    name: String,
    value: Attribute,
}

/// The attributes of a character by name. Where a name comes twice, the
/// later reading takes the place of the earlier one. Two of them are equal
/// when they hold the same attributes, in whatever order these came.
#[derive(Clone, Debug)]
pub struct Attributes {
    readings: Vec<Reading>,
}

/// The attribute that each name ends up with when `readings` are taken down
/// one after the other.
spec fn taken_down(readings: Seq<Reading>) -> Map<Seq<char>, Attribute>
    decreases readings.len(),
{
    if readings.len() == 0 {
        Map::empty()
    } else {
        taken_down(readings.drop_last()).insert(readings.last().name@, readings.last().value)
    }
}

/// Writing a reading over the last reading of the same name is taking it
/// down.
proof fn lemma_replace_last_reading(readings: Seq<Reading>, at: int, reading: Reading)
    requires
        0 <= at < readings.len(),
        readings[at].name@ == reading.name@,
        forall|j: int| at < j < readings.len() ==> readings[j].name@ != reading.name@,
    ensures
        taken_down(readings.update(at, reading)) == taken_down(readings).insert(
            reading.name@,
            reading.value,
        ),
    decreases readings.len(),
{
    let written = readings.update(at, reading);
    if at == readings.len() - 1 {
        assert(written.drop_last() =~= readings.drop_last());
        assert(taken_down(written) =~= taken_down(readings).insert(reading.name@, reading.value));
    } else {
        lemma_replace_last_reading(readings.drop_last(), at, reading);
        assert(written.drop_last() =~= readings.drop_last().update(at, reading));
        assert(taken_down(written) =~= taken_down(readings).insert(reading.name@, reading.value));
    }
}

/// The names that were taken down are the names of the readings.
proof fn lemma_names_taken_down(readings: Seq<Reading>, name: Seq<char>)
    ensures
        taken_down(readings).dom().contains(name) <==> exists|i: int|
            0 <= i < readings.len() && #[trigger] readings[i].name@ == name,
    decreases readings.len(),
{
    if readings.len() > 0 {
        lemma_names_taken_down(readings.drop_last(), name);
        if taken_down(readings).dom().contains(name) {
            if readings.last().name@ == name {
                assert(readings[readings.len() - 1].name@ == name);
            } else {
                let i = choose|i: int|
                    0 <= i < readings.drop_last().len() && #[trigger] readings.drop_last()[i].name@
                        == name;
                assert(readings[i].name@ == name);
            }
        }
        if exists|i: int| 0 <= i < readings.len() && #[trigger] readings[i].name@ == name {
            let i = choose|i: int| 0 <= i < readings.len() && #[trigger] readings[i].name@ == name;
            if i < readings.len() - 1 {
                assert(readings.drop_last()[i].name@ == name);
            }
        }
    }
}

impl View for Attributes {
    type V = Map<Seq<char>, Attribute>;

    closed spec fn view(&self) -> Map<Seq<char>, Attribute> {
        taken_down(self.readings@)
    }
}

impl Attributes {
    /// No attribute at all.
    pub fn new() -> (attributes: Attributes)
        ensures
            attributes@ == Map::<Seq<char>, Attribute>::empty(),
    {
        Attributes { readings: Vec::new() }
    }

    /// Takes down `value` under `name`, in place of an earlier reading of
    /// that name.
    pub fn insert(&mut self, name: String, value: Attribute)
        ensures
            final(self)@ == old(self)@.insert(name@, value),
    {
        let key = chars_of(name.as_str());
        let mut i: usize = self.readings.len();
        while i > 0
            invariant
                i <= self.readings.len(),
                key@ == name@,
                self.readings == old(self).readings,
                forall|j: int| i <= j < self.readings.len() ==> self.readings@[j].name@ != name@,
            decreases i,
        {
            if same_text(&key, self.readings[i - 1].name.as_str()) {
                proof {
                    lemma_replace_last_reading(self.readings@, i - 1, Reading { name, value });
                }
                self.readings.set(i - 1, Reading { name, value });
                return ;
            }
            i -= 1;
        }
        self.readings.push(Reading { name, value });
        assert(self.readings@.drop_last() =~= old(self).readings@);
    }

    /// The attribute taken down under `name`, if any.
    pub fn get(&self, name: &str) -> (found: Option<Attribute>)
        ensures
            found == (if self@.dom().contains(name@) {
                Some(self@[name@])
            } else {
                None
            }),
    {
        let key = chars_of(name);
        let mut i: usize = self.readings.len();
        assert(self.readings@.subrange(0, i as int) =~= self.readings@);
        while i > 0
            invariant
                i <= self.readings.len(),
                key@ == name@,
                taken_down(self.readings@.subrange(0, i as int)).dom().contains(name@)
                    == self@.dom().contains(name@),
                self@.dom().contains(name@) ==> taken_down(
                    self.readings@.subrange(0, i as int),
                )[name@] == self@[name@],
            decreases i,
        {
            assert(self.readings@.subrange(0, i as int).drop_last() =~= self.readings@.subrange(
                0,
                i - 1,
            ));
            if same_text(&key, self.readings[i - 1].name.as_str()) {
                return Some(self.readings[i - 1].value);
            }
            i -= 1;
        }
        None
    }

    /// Whether every attribute of `self` stands in `other` with the same
    /// value.
    pub fn within(&self, other: &Attributes) -> (all: bool)
        ensures
            all == (forall|name: Seq<char>| #[trigger]
                self@.dom().contains(name) ==> other@.dom().contains(name) && other@[name]
                    == self@[name]),
    {
        let mut i: usize = 0;
        while i < self.readings.len()
            invariant
                i <= self.readings.len(),
                forall|j: int|
                    0 <= j < i ==> other@.dom().contains(#[trigger] self.readings@[j].name@)
                        && other@[self.readings@[j].name@] == self@[self.readings@[j].name@],
            decreases self.readings.len() - i,
        {
            let name = self.readings[i].name.as_str();
            proof {
                lemma_names_taken_down(self.readings@, name@);
            }
            let same = match (self.get(name), other.get(name)) {
                (Some(mine), Some(theirs)) => mine.level == theirs.level,
                _ => false,
            };
            if !same {
                assert(self@.dom().contains(name@));
                return false;
            }
            i += 1;
        }
        proof {
            assert forall|name: Seq<char>| #[trigger]
                self@.dom().contains(name) implies other@.dom().contains(name) && other@[name]
                == self@[name] by {
                lemma_names_taken_down(self.readings@, name);
            }
        }
        true
    }

    /// Whether an attribute was taken down under `name`.
    pub fn contains(&self, name: &str) -> (found: bool)
        ensures
            found == self@.dom().contains(name@),
    {
        self.get(name).is_some()
    }
}

impl PartialEq for Attributes {
    /// Whether both hold the same attributes.
    fn eq(&self, other: &Attributes) -> (same: bool) {
        let same = self.within(other) && other.within(self);
        proof {
            if same {
                assert(self@ =~= other@);
            }
        }
        same
    }
}

impl Eq for Attributes {

}

impl PartialEqSpecImpl for Attributes {
    open spec fn obeys_eq_spec() -> bool {
        true
    }

    open spec fn eq_spec(&self, other: &Attributes) -> bool {
        self@ == other@
    }
}

} // verus!
