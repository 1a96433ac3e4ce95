//! The equipment of a character.

use vstd::prelude::*;

verus! {

/// A place on a character where one piece of equipment goes.
#[derive(Clone, Copy, Debug, PartialEq, Eq, PartialOrd, Ord, Hash, Structural)]
pub enum Slot {
    PrimaryWeapon,
    Head,
    Body,
    Hands,
    Legs,
    Feet,
    Glasses,
    SecondaryWeapon,
    Earrings,
    Necklace,
    Bracelets,
    Ring1,
    Ring2,
    Soul,
}

impl Slot {
    /// The place of this slot in the list of all slots, from 0.
    pub open spec fn ordinal(self) -> nat {
        match self {
            Slot::PrimaryWeapon => 0,
            Slot::Head => 1,
            Slot::Body => 2,
            Slot::Hands => 3,
            Slot::Legs => 4,
            Slot::Feet => 5,
            Slot::Glasses => 6,
            Slot::SecondaryWeapon => 7,
            Slot::Earrings => 8,
            Slot::Necklace => 9,
            Slot::Bracelets => 10,
            Slot::Ring1 => 11,
            Slot::Ring2 => 12,
            Slot::Soul => 13,
        }
    }

    /// The place of this slot in the list of all slots, from 0.
    pub fn index(self) -> (i: usize)
        ensures
            i == self.ordinal(),
            i < 14,
    {
        match self {
            Slot::PrimaryWeapon => 0,
            Slot::Head => 1,
            Slot::Body => 2,
            Slot::Hands => 3,
            Slot::Legs => 4,
            Slot::Feet => 5,
            Slot::Glasses => 6,
            Slot::SecondaryWeapon => 7,
            Slot::Earrings => 8,
            Slot::Necklace => 9,
            Slot::Bracelets => 10,
            Slot::Ring1 => 11,
            Slot::Ring2 => 12,
            Slot::Soul => 13,
        }
    }

    /// The class name by which a profile page marks the box of this slot.
    pub open spec fn marker(self) -> Seq<char> {
        match self {
            Slot::PrimaryWeapon => "icon-c--0"@,
            Slot::SecondaryWeapon => "icon-c--1"@,
            Slot::Head => "icon-c--2"@,
            Slot::Body => "icon-c--3"@,
            Slot::Hands => "icon-c--4"@,
            Slot::Legs => "icon-c--6"@,
            Slot::Feet => "icon-c--7"@,
            Slot::Earrings => "icon-c--8"@,
            Slot::Necklace => "icon-c--9"@,
            Slot::Bracelets => "icon-c--10"@,
            Slot::Ring1 => "icon-c--11"@,
            Slot::Ring2 => "icon-c--12"@,
            Slot::Soul => "icon-c--13"@,
            Slot::Glasses => "icon-c--glasses"@,
        }
    }

    /// The class name by which a profile page marks the box of this slot.
    pub fn marker_str(self) -> (text: &'static str)
        ensures
            text@ == self.marker(),
    {
        match self {
            Slot::PrimaryWeapon => "icon-c--0",
            Slot::SecondaryWeapon => "icon-c--1",
            Slot::Head => "icon-c--2",
            Slot::Body => "icon-c--3",
            Slot::Hands => "icon-c--4",
            Slot::Legs => "icon-c--6",
            Slot::Feet => "icon-c--7",
            Slot::Earrings => "icon-c--8",
            Slot::Necklace => "icon-c--9",
            Slot::Bracelets => "icon-c--10",
            Slot::Ring1 => "icon-c--11",
            Slot::Ring2 => "icon-c--12",
            Slot::Soul => "icon-c--13",
            Slot::Glasses => "icon-c--glasses",
        }
    }

    /// All slots, in the order of their markers.
    pub open spec fn every() -> Seq<Slot> {
        seq![
            Slot::PrimaryWeapon,
            Slot::SecondaryWeapon,
            Slot::Head,
            Slot::Body,
            Slot::Hands,
            Slot::Legs,
            Slot::Feet,
            Slot::Earrings,
            Slot::Necklace,
            Slot::Bracelets,
            Slot::Ring1,
            Slot::Ring2,
            Slot::Soul,
            Slot::Glasses,
        ]
    }

    /// All slots, in the order of their markers.
    pub fn all() -> (slots: [Slot; 14])
        ensures
            slots@ == Slot::every(),
    {
        let slots = [
            Slot::PrimaryWeapon,
            Slot::SecondaryWeapon,
            Slot::Head,
            Slot::Body,
            Slot::Hands,
            Slot::Legs,
            Slot::Feet,
            Slot::Earrings,
            Slot::Necklace,
            Slot::Bracelets,
            Slot::Ring1,
            Slot::Ring2,
            Slot::Soul,
            Slot::Glasses,
        ];
        assert(slots@ =~= Slot::every());
        slots
    }

    /// No two slots share a place in the list.
    pub proof fn law_ordinal_distinct(a: Slot, b: Slot)
        ensures
            a.ordinal() == b.ordinal() ==> a == b,
            a.ordinal() < 14,
    {
    }
}

/// One piece of equipment.
#[derive(Clone, Debug, PartialEq, Eq)]
pub struct Gear {
    /// The identifier of the item in the site's item database.
    pub lodestone_id: String,
    /// The name of the item.
    pub name: String,
}

/// What a `Gear` holds, as plain text.
pub struct GearView {
    pub lodestone_id: Seq<char>,
    pub name: Seq<char>,
}

impl View for Gear {
    type V = GearView;

    open spec fn view(&self) -> GearView {
        GearView { lodestone_id: self.lodestone_id@, name: self.name@ }
    }
}

/// What a slot holds: the piece worn, and the piece shown in its place, if
/// the character shows another.
#[derive(Clone, Debug, PartialEq, Eq)]
pub struct GearSlot {
    /// The piece worn.
    pub gear: Gear,
    /// The piece shown instead.
    pub glamour: Option<Gear>,
}

/// What a `GearSlot` holds, as plain text.
pub struct GearSlotView {
    pub gear: GearView,
    pub glamour: Option<GearView>,
}

impl View for GearSlot {
    type V = GearSlotView;

    open spec fn view(&self) -> GearSlotView {
        GearSlotView {
            gear: self.gear@,
            glamour: match self.glamour {
                Some(gear) => Some(gear@),
                None => None,
            },
        }
    }
}

/// The equipment of a character: what each slot holds. A slot that holds
/// nothing is missing.
#[derive(Clone, Debug, PartialEq, Eq)]
pub struct GearSet {
    slots: [Option<GearSlot>; 14],
}

impl View for GearSet {
    type V = Map<Slot, GearSlotView>;

    closed spec fn view(&self) -> Map<Slot, GearSlotView> {
        Map::new(
            |slot: Slot| self.slots@[slot.ordinal() as int] is Some,
            |slot: Slot| self.slots@[slot.ordinal() as int]->0@,
        )
    }
}

impl GearSet {
    /// No equipment at all.
    pub fn new() -> (gear: GearSet)
        ensures
            gear@ == Map::<Slot, GearSlotView>::empty(),
    {
        let gear = GearSet {
            slots: [
                None,
                None,
                None,
                None,
                None,
                None,
                None,
                None,
                None,
                None,
                None,
                None,
                None,
                None,
            ],
        };
        proof {
            assert forall|slot: Slot| !#[trigger] gear@.dom().contains(slot) by {
                Slot::law_ordinal_distinct(slot, slot);
            }
            assert(gear@ =~= Map::<Slot, GearSlotView>::empty());
        }
        gear
    }

    /// Puts `worn` into `slot`, in place of what was there.
    pub fn insert(&mut self, slot: Slot, worn: GearSlot)
        ensures
            final(self)@ == old(self)@.insert(slot, worn@),
    {
        let i: usize = slot.index();
        self.slots.set(i, Some(worn));
        proof {
            assert forall|other: Slot| other != slot implies other.ordinal() != slot.ordinal() by {
                Slot::law_ordinal_distinct(other, slot);
            }
            assert(self@ =~= old(self)@.insert(slot, worn@));
        }
    }

    /// Whether `slot` holds anything.
    pub fn contains(&self, slot: Slot) -> (found: bool)
        ensures
            found == self@.dom().contains(slot),
    {
        self.slots[slot.index()].is_some()
    }

    /// What `slot` holds, if anything.
    pub fn get(&self, slot: Slot) -> (worn: Option<&GearSlot>)
        ensures
            match worn {
                Some(worn) => self@.dom().contains(slot) && self@[slot] == worn@,
                None => !self@.dom().contains(slot),
            },
    {
        self.slots[slot.index()].as_ref()
    }
}

} // verus!
