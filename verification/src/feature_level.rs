//! The hardware feature levels a device may be created at.

use vstd::prelude::*;

verus! {

/// A feature level, from the least capable to the most capable.
#[derive(Clone, Copy, Debug, PartialEq, Eq)]
pub enum FeatureLevel {
    Level9_1,
    Level9_2,
    Level9_3,
    Level10_0,
    Level10_1,
    Level11_0,
    Level11_1,
}

impl FeatureLevel {
    /// The number by which the graphics runtime names the level.
    pub open spec fn code_of(self) -> u32 {
        match self {
            FeatureLevel::Level9_1 => 0x9100,
            FeatureLevel::Level9_2 => 0x9200,
            FeatureLevel::Level9_3 => 0x9300,
            FeatureLevel::Level10_0 => 0xa000,
            FeatureLevel::Level10_1 => 0xa100,
            FeatureLevel::Level11_0 => 0xb000,
            FeatureLevel::Level11_1 => 0xb100,
        }
    }

    /// The level that a number names, if any.
    pub open spec fn level_of(code: u32) -> Option<FeatureLevel> {
        if code == 0x9100 {
            Some(FeatureLevel::Level9_1)
        } else if code == 0x9200 {
            Some(FeatureLevel::Level9_2)
        } else if code == 0x9300 {
            Some(FeatureLevel::Level9_3)
        } else if code == 0xa000 {
            Some(FeatureLevel::Level10_0)
        } else if code == 0xa100 {
            Some(FeatureLevel::Level10_1)
        } else if code == 0xb000 {
            Some(FeatureLevel::Level11_0)
        } else if code == 0xb100 {
            Some(FeatureLevel::Level11_1)
        } else {
            None
        }
    }

    /// The number by which the graphics runtime names the level.
    pub fn code(self) -> (c: u32)
        ensures
            c == self.code_of(),
    {
        match self {
            FeatureLevel::Level9_1 => 0x9100,
            FeatureLevel::Level9_2 => 0x9200,
            FeatureLevel::Level9_3 => 0x9300,
            FeatureLevel::Level10_0 => 0xa000,
            FeatureLevel::Level10_1 => 0xa100,
            FeatureLevel::Level11_0 => 0xb000,
            FeatureLevel::Level11_1 => 0xb100,
        }
    }

    /// Reads a level from its number; `None` for a number that names no
    /// level the session offers.
    pub fn from_code(code: u32) -> (level: Option<FeatureLevel>)
        ensures
            level == Self::level_of(code),
            level matches Some(l) ==> l.code_of() == code,
            level is None <==> forall|l: FeatureLevel| l.code_of() != code,
    {
        if code == 0x9100 {
            Some(FeatureLevel::Level9_1)
        } else if code == 0x9200 {
            Some(FeatureLevel::Level9_2)
        } else if code == 0x9300 {
            Some(FeatureLevel::Level9_3)
        } else if code == 0xa000 {
            Some(FeatureLevel::Level10_0)
        } else if code == 0xa100 {
            Some(FeatureLevel::Level10_1)
        } else if code == 0xb000 {
            Some(FeatureLevel::Level11_0)
        } else if code == 0xb100 {
            Some(FeatureLevel::Level11_1)
        } else {
            None
        }
    }
}

/// The levels offered when a device is created, most capable first.
pub open spec fn preferred_levels() -> [FeatureLevel; 7] {
    [
        FeatureLevel::Level11_1,
        FeatureLevel::Level11_0,
        FeatureLevel::Level10_1,
        FeatureLevel::Level10_0,
        FeatureLevel::Level9_3,
        FeatureLevel::Level9_2,
        FeatureLevel::Level9_1,
    ]
}

/// The list to hand to the runtime when it creates a device: it takes the
/// first entry that the driver supports.
pub fn candidate_levels() -> (levels: [FeatureLevel; 7])
    ensures
        levels == preferred_levels(),
{
    [
        FeatureLevel::Level11_1,
        FeatureLevel::Level11_0,
        FeatureLevel::Level10_1,
        FeatureLevel::Level10_0,
        FeatureLevel::Level9_3,
        FeatureLevel::Level9_2,
        FeatureLevel::Level9_1,
    ]
}

/// A level's number reads back as that level.
pub proof fn law_code_round_trip(level: FeatureLevel)
    ensures
        FeatureLevel::level_of(level.code_of()) == Some(level),
{
}

/// The offered list runs strictly downwards, so the first entry a driver
/// supports is the most capable one it supports.
pub proof fn law_preferred_levels_descend(i: int, j: int)
    requires
        0 <= i < j < 7,
    ensures
        preferred_levels()@[i].code_of() > preferred_levels()@[j].code_of(),
{
}

/// Every level is on offer, so whichever one the driver settles on can be
/// read back.
pub proof fn law_every_level_is_offered(level: FeatureLevel)
    ensures
        preferred_levels()@.contains(level),
{
    let k: int = match level {
        FeatureLevel::Level11_1 => 0,
        FeatureLevel::Level11_0 => 1,
        FeatureLevel::Level10_1 => 2,
        FeatureLevel::Level10_0 => 3,
        FeatureLevel::Level9_3 => 4,
        FeatureLevel::Level9_2 => 5,
        FeatureLevel::Level9_1 => 6,
    };
    assert(preferred_levels()@[k] == level);
}

} // verus!
