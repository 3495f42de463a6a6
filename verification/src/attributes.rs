use vstd::prelude::*;

verus! {

/// The six character attributes.
#[derive(Copy, Clone, PartialEq, Eq, Structural, Debug)]
pub enum AttributeType {
    Strength,
    Dexterity,
    Endurance,
    Intelligence,
    Education,
    Charm,
}

/// The dice modifier an attribute contributes at a given current value:
/// a fixed step function over seven bands.
pub open spec fn bonus_of(current: int) -> int {
    if current <= 0 {
        -3
    } else if current <= 2 {
        -2
    } else if current <= 5 {
        -1
    } else if current <= 8 {
        0
    } else if current <= 11 {
        1
    } else if current <= 14 {
        2
    } else {
        3
    }
}

/// A single bounded stat: a current value moved by heal/damage, and a
/// maximum fixed at construction.
#[derive(Copy, Clone, Debug, PartialEq, Eq, Structural)]
pub struct AttributeValue {
    current: i32,
    max: i32,
}

impl AttributeValue {
    /// The current value, as a mathematical integer.
    pub closed spec fn spec_current(&self) -> int {
        self.current as int
    }

    /// The maximum value, as a mathematical integer.
    pub closed spec fn spec_max(&self) -> int {
        self.max as int
    }

    /// The current value never exceeds the maximum.
    pub open spec fn wf(&self) -> bool {
        self.spec_current() <= self.spec_max()
    }

    /// A freshly created attribute: current and max both equal the seed.
    pub open spec fn is_seed(&self, seed: int) -> bool {
        self.spec_current() == seed && self.spec_max() == seed
    }

    pub fn new(value: i32) -> (r: Self)
        ensures
            r.is_seed(value as int),
            r.wf(),
    {
        Self { current: value, max: value }
    }

    pub fn current(&self) -> (r: i32)
        ensures
            r as int == self.spec_current(),
    {
        self.current
    }

    pub fn max(&self) -> (r: i32)
        ensures
            r as int == self.spec_max(),
    {
        self.max
    }

    /// The attribute's contribution to a check, derived from the current value.
    pub fn bonus(&self) -> (r: i32)
        ensures
            r as int == bonus_of(self.spec_current()),
    {
        let c = self.current;
        if c <= 0 {
            -3
        } else if c <= 2 {
            -2
        } else if c <= 5 {
            -1
        } else if c <= 8 {
            0
        } else if c <= 11 {
            1
        } else if c <= 14 {
            2
        } else {
            3
        }
    }

    /// Raise the current value by `delta`, clamped at the maximum.
    /// A non-positive `delta` leaves the value untouched.
    pub fn heal(&mut self, delta: i32)
        ensures
            delta <= 0 ==> *final(self) == *old(self),
            delta > 0 ==> final(self).spec_current() == (if old(self).spec_current() + delta
                <= old(self).spec_max() {
                old(self).spec_current() + delta
            } else {
                old(self).spec_max()
            }),
            final(self).spec_max() == old(self).spec_max(),
    {
        if delta > 0 {
            let sum: i64 = self.current as i64 + delta as i64;
            if sum >= self.max as i64 {
                self.current = self.max;
            } else {
                self.current = sum as i32;
            }
        }
    }

    /// Lower the current value by `delta`, with no floor: the value may go
    /// below zero. A non-positive `delta` leaves the value untouched.
    pub fn damage(&mut self, delta: i32)
        requires
            delta > 0 ==> old(self).spec_current() - delta >= i32::MIN,
        ensures
            delta <= 0 ==> *final(self) == *old(self),
            delta > 0 ==> final(self).spec_current() == old(self).spec_current() - delta,
            final(self).spec_max() == old(self).spec_max(),
    {
        if delta > 0 {
            self.current = self.current - delta;
        }
    }
}

/// The full set of a character's attributes: exactly one value per kind.
pub struct Attributes {
    /// natural physical strength
    strength: AttributeValue,
    /// agility, reflexes, coordination, and fine motor control
    dexterity: AttributeValue,
    /// physical stamina, determination, and ability to sustain damage
    endurance: AttributeValue,
    /// raw intelligence and quickness of mind
    intelligence: AttributeValue,
    /// lifetime learning and experience, especially academic
    education: AttributeValue,
    /// untrained charisma and social aptitude
    charm: AttributeValue,
}

impl Attributes {
    /// The stored value for a given attribute kind.
    pub closed spec fn spec_attribute(&self, attribute: AttributeType) -> AttributeValue {
        match attribute {
            AttributeType::Strength => self.strength,
            AttributeType::Dexterity => self.dexterity,
            AttributeType::Endurance => self.endurance,
            AttributeType::Intelligence => self.intelligence,
            AttributeType::Education => self.education,
            AttributeType::Charm => self.charm,
        }
    }

    pub fn new(
        strength: i32,
        dexterity: i32,
        endurance: i32,
        intelligence: i32,
        education: i32,
        charm: i32,
    ) -> (r: Self)
        ensures
            r.spec_attribute(AttributeType::Strength).is_seed(strength as int),
            r.spec_attribute(AttributeType::Dexterity).is_seed(dexterity as int),
            r.spec_attribute(AttributeType::Endurance).is_seed(endurance as int),
            r.spec_attribute(AttributeType::Intelligence).is_seed(intelligence as int),
            r.spec_attribute(AttributeType::Education).is_seed(education as int),
            r.spec_attribute(AttributeType::Charm).is_seed(charm as int),
    {
        Self {
            strength: AttributeValue::new(strength),
            dexterity: AttributeValue::new(dexterity),
            endurance: AttributeValue::new(endurance),
            intelligence: AttributeValue::new(intelligence),
            education: AttributeValue::new(education),
            charm: AttributeValue::new(charm),
        }
    }

    /// The uniform preset: every attribute seeded at 7.
    pub fn default() -> (r: Self)
        ensures
            forall|k: AttributeType| r.spec_attribute(k).is_seed(7),
    {
        let r = Self::new(7, 7, 7, 7, 7, 7);
        proof {
            assert forall|k: AttributeType| r.spec_attribute(k).is_seed(7) by {
                match k {
                    AttributeType::Strength => {},
                    AttributeType::Dexterity => {},
                    AttributeType::Endurance => {},
                    AttributeType::Intelligence => {},
                    AttributeType::Education => {},
                    AttributeType::Charm => {},
                }
            }
        }
        r
    }

    /// Read access to the value stored for a kind.
    pub fn attribute(&self, attribute: AttributeType) -> (r: &AttributeValue)
        ensures
            *r == self.spec_attribute(attribute),
    {
        match attribute {
            AttributeType::Strength => &self.strength,
            AttributeType::Dexterity => &self.dexterity,
            AttributeType::Endurance => &self.endurance,
            AttributeType::Intelligence => &self.intelligence,
            AttributeType::Education => &self.education,
            AttributeType::Charm => &self.charm,
        }
    }

    /// Mutable access to the value stored for a kind; the other kinds are
    /// left untouched.
    pub fn mut_attribute(&mut self, attribute: AttributeType) -> (r: &mut AttributeValue)
        ensures
            *r == old(self).spec_attribute(attribute),
            final(self).spec_attribute(attribute) == *final(r),
            forall|k: AttributeType|
                k != attribute ==> final(self).spec_attribute(k) == old(self).spec_attribute(k),
    {
        match attribute {
            AttributeType::Strength => &mut self.strength,
            AttributeType::Dexterity => &mut self.dexterity,
            AttributeType::Endurance => &mut self.endurance,
            AttributeType::Intelligence => &mut self.intelligence,
            AttributeType::Education => &mut self.education,
            AttributeType::Charm => &mut self.charm,
        }
    }
}

} // verus!
