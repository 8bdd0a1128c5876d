//! The fixed catalog: the fourteen abilities and the twenty-two brands, their
//! ordinals and their name tables.
use vstd::prelude::*;
use vstd::string::*;

verus! {

/// One of the fourteen outcomes of a roll.
#[allow(non_camel_case_types)]
#[derive(Debug, Clone, Copy, PartialEq, Eq, Structural)]
pub enum Ability {
    /// Ink Saver (Main)
    MainInk_Save,
    /// Ink Saver (Sub)
    SubInk_Save,
    /// Ink Recovery Up
    InkRecovery_Up,
    /// Run Speed Up
    HumanMove_Up,
    /// Swim Speed Up
    SquidMove_Up,
    /// Special Charge Up
    SpecialIncrease_Up,
    /// Special Saver
    RespawnSpecialGauge_Save,
    /// Special Power Up
    SpecialSpec_Up,
    /// Quick Respawn
    RespawnTime_Save,
    /// Quick Super Jump
    JumpTime_Save,
    /// Sub Power Up
    SubSpec_Up,
    /// Ink Resistance Up
    OpInkEffect_Reduction,
    /// Sub Resistance Up
    SubEffect_Reduction,
    /// Intensify Action
    Action_Up,
}

/// Number of abilities in the catalog.
pub const NUM_ABILITIES: usize = 14;

/// Number of brands in the catalog.
pub const NUM_BRANDS: usize = 22;

/// The ordinal of an ability, in `0..14`.
pub open spec fn ability_ord(a: Ability) -> int {
    match a {
        Ability::MainInk_Save => 0,
        Ability::SubInk_Save => 1,
        Ability::InkRecovery_Up => 2,
        Ability::HumanMove_Up => 3,
        Ability::SquidMove_Up => 4,
        Ability::SpecialIncrease_Up => 5,
        Ability::RespawnSpecialGauge_Save => 6,
        Ability::SpecialSpec_Up => 7,
        Ability::RespawnTime_Save => 8,
        Ability::JumpTime_Save => 9,
        Ability::SubSpec_Up => 10,
        Ability::OpInkEffect_Reduction => 11,
        Ability::SubEffect_Reduction => 12,
        Ability::Action_Up => 13,
    }
}

/// The ability with ordinal `i` (meaningful for `0 <= i < 14`).
pub open spec fn ability_at(i: int) -> Ability {
    if i == 0 {
        Ability::MainInk_Save
    } else if i == 1 {
        Ability::SubInk_Save
    } else if i == 2 {
        Ability::InkRecovery_Up
    } else if i == 3 {
        Ability::HumanMove_Up
    } else if i == 4 {
        Ability::SquidMove_Up
    } else if i == 5 {
        Ability::SpecialIncrease_Up
    } else if i == 6 {
        Ability::RespawnSpecialGauge_Save
    } else if i == 7 {
        Ability::SpecialSpec_Up
    } else if i == 8 {
        Ability::RespawnTime_Save
    } else if i == 9 {
        Ability::JumpTime_Save
    } else if i == 10 {
        Ability::SubSpec_Up
    } else if i == 11 {
        Ability::OpInkEffect_Reduction
    } else if i == 12 {
        Ability::SubEffect_Reduction
    } else {
        Ability::Action_Up
    }
}

/// The current game-internal name of an ability.
pub open spec fn ability_name(a: Ability) -> Seq<char> {
    match a {
        Ability::MainInk_Save => "MainInk_Save"@,
        Ability::SubInk_Save => "SubInk_Save"@,
        Ability::InkRecovery_Up => "InkRecovery_Up"@,
        Ability::HumanMove_Up => "HumanMove_Up"@,
        Ability::SquidMove_Up => "SquidMove_Up"@,
        Ability::SpecialIncrease_Up => "SpecialIncrease_Up"@,
        Ability::RespawnSpecialGauge_Save => "RespawnSpecialGauge_Save"@,
        Ability::SpecialSpec_Up => "SpecialSpec_Up"@,
        Ability::RespawnTime_Save => "RespawnTime_Save"@,
        Ability::JumpTime_Save => "JumpTime_Save"@,
        Ability::SubSpec_Up => "SubSpec_Up"@,
        Ability::OpInkEffect_Reduction => "OpInkEffect_Reduction"@,
        Ability::SubEffect_Reduction => "SubEffect_Reduction"@,
        Ability::Action_Up => "Action_Up"@,
    }
}

/// The game-internal name of an ability in the older naming scheme.
pub open spec fn ability_legacy_name(a: Ability) -> Seq<char> {
    match a {
        Ability::MainInk_Save => "MainInk_Save"@,
        Ability::SubInk_Save => "SubInk_Save"@,
        Ability::InkRecovery_Up => "InkRecovery_Up"@,
        Ability::HumanMove_Up => "HumanMove_Up"@,
        Ability::SquidMove_Up => "SquidMove_Up"@,
        Ability::SpecialIncrease_Up => "SpecialIncrease_Up"@,
        Ability::RespawnSpecialGauge_Save => "RespawnSpecialGauge_Save"@,
        Ability::SpecialSpec_Up => "SpecialTime_Up"@,
        Ability::RespawnTime_Save => "RespawnTime_Save"@,
        Ability::JumpTime_Save => "JumpTime_Save"@,
        Ability::SubSpec_Up => "BombDistance_Up"@,
        Ability::OpInkEffect_Reduction => "OpInkEffect_Reduction"@,
        Ability::SubEffect_Reduction => "SubEffect_Reduction"@,
        Ability::Action_Up => "Action_Up"@,
    }
}

/// The name shown to players.
pub open spec fn ability_display_name(a: Ability) -> Seq<char> {
    match a {
        Ability::MainInk_Save => "Ink Saver (Main)"@,
        Ability::SubInk_Save => "Ink Saver (Sub)"@,
        Ability::InkRecovery_Up => "Ink Recovery Up"@,
        Ability::HumanMove_Up => "Run Speed Up"@,
        Ability::SquidMove_Up => "Swim Speed Up"@,
        Ability::SpecialIncrease_Up => "Special Charge Up"@,
        Ability::RespawnSpecialGauge_Save => "Special Saver"@,
        Ability::SpecialSpec_Up => "Special Power Up"@,
        Ability::RespawnTime_Save => "Quick Respawn"@,
        Ability::JumpTime_Save => "Quick Super Jump"@,
        Ability::SubSpec_Up => "Sub Power Up"@,
        Ability::OpInkEffect_Reduction => "Ink Resistance Up"@,
        Ability::SubEffect_Reduction => "Sub Resistance Up"@,
        Ability::Action_Up => "Intensify Action"@,
    }
}

/// Ordinals and abilities correspond one to one.
pub proof fn lemma_ability_ord(a: Ability, i: int)
    ensures
        0 <= ability_ord(a) < NUM_ABILITIES,
        ability_at(ability_ord(a)) == a,
        0 <= i < NUM_ABILITIES ==> ability_ord(ability_at(i)) == i,
{
}

impl Ability {
    /// The ability with ordinal `val`.
    #[must_use]
    pub fn from_usize(val: usize) -> (r: Self)
        requires
            val < NUM_ABILITIES,
        ensures
            r == ability_at(val as int),
            ability_ord(r) == val,
    {
        if val == 0 {
            Ability::MainInk_Save
        } else if val == 1 {
            Ability::SubInk_Save
        } else if val == 2 {
            Ability::InkRecovery_Up
        } else if val == 3 {
            Ability::HumanMove_Up
        } else if val == 4 {
            Ability::SquidMove_Up
        } else if val == 5 {
            Ability::SpecialIncrease_Up
        } else if val == 6 {
            Ability::RespawnSpecialGauge_Save
        } else if val == 7 {
            Ability::SpecialSpec_Up
        } else if val == 8 {
            Ability::RespawnTime_Save
        } else if val == 9 {
            Ability::JumpTime_Save
        } else if val == 10 {
            Ability::SubSpec_Up
        } else if val == 11 {
            Ability::OpInkEffect_Reduction
        } else if val == 12 {
            Ability::SubEffect_Reduction
        } else {
            Ability::Action_Up
        }
    }

    /// The ordinal of this ability.
    #[must_use]
    pub fn ordinal(&self) -> (r: usize)
        ensures
            r == ability_ord(*self),
    {
        match self {
            Ability::MainInk_Save => 0,
            Ability::SubInk_Save => 1,
            Ability::InkRecovery_Up => 2,
            Ability::HumanMove_Up => 3,
            Ability::SquidMove_Up => 4,
            Ability::SpecialIncrease_Up => 5,
            Ability::RespawnSpecialGauge_Save => 6,
            Ability::SpecialSpec_Up => 7,
            Ability::RespawnTime_Save => 8,
            Ability::JumpTime_Save => 9,
            Ability::SubSpec_Up => 10,
            Ability::OpInkEffect_Reduction => 11,
            Ability::SubEffect_Reduction => 12,
            Ability::Action_Up => 13,
        }
    }

    /// The current game-internal name.
    #[must_use]
    pub fn internal_name(&self) -> (r: &'static str)
        ensures
            r@ == ability_name(*self),
    {
        match self {
            Ability::MainInk_Save => "MainInk_Save",
            Ability::SubInk_Save => "SubInk_Save",
            Ability::InkRecovery_Up => "InkRecovery_Up",
            Ability::HumanMove_Up => "HumanMove_Up",
            Ability::SquidMove_Up => "SquidMove_Up",
            Ability::SpecialIncrease_Up => "SpecialIncrease_Up",
            Ability::RespawnSpecialGauge_Save => "RespawnSpecialGauge_Save",
            Ability::SpecialSpec_Up => "SpecialSpec_Up",
            Ability::RespawnTime_Save => "RespawnTime_Save",
            Ability::JumpTime_Save => "JumpTime_Save",
            Ability::SubSpec_Up => "SubSpec_Up",
            Ability::OpInkEffect_Reduction => "OpInkEffect_Reduction",
            Ability::SubEffect_Reduction => "SubEffect_Reduction",
            Ability::Action_Up => "Action_Up",
        }
    }

    /// The game-internal name in the older naming scheme.
    #[must_use]
    pub fn legacy_internal_name(&self) -> (r: &'static str)
        ensures
            r@ == ability_legacy_name(*self),
    {
        match self {
            Ability::MainInk_Save => "MainInk_Save",
            Ability::SubInk_Save => "SubInk_Save",
            Ability::InkRecovery_Up => "InkRecovery_Up",
            Ability::HumanMove_Up => "HumanMove_Up",
            Ability::SquidMove_Up => "SquidMove_Up",
            Ability::SpecialIncrease_Up => "SpecialIncrease_Up",
            Ability::RespawnSpecialGauge_Save => "RespawnSpecialGauge_Save",
            Ability::SpecialSpec_Up => "SpecialTime_Up",
            Ability::RespawnTime_Save => "RespawnTime_Save",
            Ability::JumpTime_Save => "JumpTime_Save",
            Ability::SubSpec_Up => "BombDistance_Up",
            Ability::OpInkEffect_Reduction => "OpInkEffect_Reduction",
            Ability::SubEffect_Reduction => "SubEffect_Reduction",
            Ability::Action_Up => "Action_Up",
        }
    }

    /// The name shown to players.
    #[must_use]
    pub fn display_name(&self) -> (r: &'static str)
        ensures
            r@ == ability_display_name(*self),
    {
        match self {
            Ability::MainInk_Save => "Ink Saver (Main)",
            Ability::SubInk_Save => "Ink Saver (Sub)",
            Ability::InkRecovery_Up => "Ink Recovery Up",
            Ability::HumanMove_Up => "Run Speed Up",
            Ability::SquidMove_Up => "Swim Speed Up",
            Ability::SpecialIncrease_Up => "Special Charge Up",
            Ability::RespawnSpecialGauge_Save => "Special Saver",
            Ability::SpecialSpec_Up => "Special Power Up",
            Ability::RespawnTime_Save => "Quick Respawn",
            Ability::JumpTime_Save => "Quick Super Jump",
            Ability::SubSpec_Up => "Sub Power Up",
            Ability::OpInkEffect_Reduction => "Ink Resistance Up",
            Ability::SubEffect_Reduction => "Sub Resistance Up",
            Ability::Action_Up => "Intensify Action",
        }
    }

    /// The ability whose current internal name is `name`, matched exactly.
    #[must_use]
    pub fn from_name(name: &str) -> (r: Option<Self>)
        ensures
            match r {
                Some(a) => ability_name(a) == name@,
                None => forall|a: Ability| ability_name(a) != name@,
            },
    {
        let mut i: usize = 0;
        while i < NUM_ABILITIES
            invariant
                i <= NUM_ABILITIES,
                forall|j: int| 0 <= j < i ==> ability_name(#[trigger] ability_at(j)) != name@,
            decreases NUM_ABILITIES - i,
        {
            let a = Ability::from_usize(i);
            if same_text(name, a.internal_name()) {
                return Some(a);
            }
            i += 1;
        }
        proof {
            assert forall|a: Ability| ability_name(a) != name@ by {
                lemma_ability_ord(a, 0);
                assert(ability_name(ability_at(ability_ord(a))) != name@);
            }
        }
        None
    }
}

/// One of the twenty-two gear brands.
#[derive(Debug, Clone, Copy, PartialEq, Eq, Structural)]
pub enum Brand {
    /// SquidForce
    B00,
    /// Zink
    B01,
    /// Krak-On
    B02,
    /// Rockenberg
    B03,
    /// Zekko
    B04,
    /// Forge
    B05,
    /// Firefin
    B06,
    /// Skalop
    B07,
    /// Splash Mob
    B08,
    /// Inkline
    B09,
    /// Tentatek
    B10,
    /// Takoroka
    B11,
    /// Annaki
    B15,
    /// Enperry
    B16,
    /// Toni Kensa
    B17,
    /// Unused, but still had brand data
    B18,
    /// Barazushi
    B19,
    /// Emberz
    B20,
    /// Grizzco
    B97,
    /// Cuttlegear
    B98,
    /// Amiibo
    B99,
    /// No brand
    NoBrand,
}

/// The ordinal of a brand, in `0..22`.
pub open spec fn brand_ord(b: Brand) -> int {
    match b {
        Brand::B00 => 0,
        Brand::B01 => 1,
        Brand::B02 => 2,
        Brand::B03 => 3,
        Brand::B04 => 4,
        Brand::B05 => 5,
        Brand::B06 => 6,
        Brand::B07 => 7,
        Brand::B08 => 8,
        Brand::B09 => 9,
        Brand::B10 => 10,
        Brand::B11 => 11,
        Brand::B15 => 12,
        Brand::B16 => 13,
        Brand::B17 => 14,
        Brand::B18 => 15,
        Brand::B19 => 16,
        Brand::B20 => 17,
        Brand::B97 => 18,
        Brand::B98 => 19,
        Brand::B99 => 20,
        Brand::NoBrand => 21,
    }
}

/// The brand with ordinal `i` (meaningful for `0 <= i < 22`).
pub open spec fn brand_at(i: int) -> Brand {
    if i == 0 {
        Brand::B00
    } else if i == 1 {
        Brand::B01
    } else if i == 2 {
        Brand::B02
    } else if i == 3 {
        Brand::B03
    } else if i == 4 {
        Brand::B04
    } else if i == 5 {
        Brand::B05
    } else if i == 6 {
        Brand::B06
    } else if i == 7 {
        Brand::B07
    } else if i == 8 {
        Brand::B08
    } else if i == 9 {
        Brand::B09
    } else if i == 10 {
        Brand::B10
    } else if i == 11 {
        Brand::B11
    } else if i == 12 {
        Brand::B15
    } else if i == 13 {
        Brand::B16
    } else if i == 14 {
        Brand::B17
    } else if i == 15 {
        Brand::B18
    } else if i == 16 {
        Brand::B19
    } else if i == 17 {
        Brand::B20
    } else if i == 18 {
        Brand::B97
    } else if i == 19 {
        Brand::B98
    } else if i == 20 {
        Brand::B99
    } else {
        Brand::NoBrand
    }
}

/// The internal name of a brand.
pub open spec fn brand_name(b: Brand) -> Seq<char> {
    match b {
        Brand::B00 => "B00"@,
        Brand::B01 => "B01"@,
        Brand::B02 => "B02"@,
        Brand::B03 => "B03"@,
        Brand::B04 => "B04"@,
        Brand::B05 => "B05"@,
        Brand::B06 => "B06"@,
        Brand::B07 => "B07"@,
        Brand::B08 => "B08"@,
        Brand::B09 => "B09"@,
        Brand::B10 => "B10"@,
        Brand::B11 => "B11"@,
        Brand::B15 => "B15"@,
        Brand::B16 => "B16"@,
        Brand::B17 => "B17"@,
        Brand::B18 => "B18"@,
        Brand::B19 => "B19"@,
        Brand::B20 => "B20"@,
        Brand::B97 => "B97"@,
        Brand::B98 => "B98"@,
        Brand::B99 => "B99"@,
        Brand::NoBrand => "None"@,
    }
}

/// Ordinals and brands correspond one to one.
pub proof fn lemma_brand_ord(b: Brand, i: int)
    ensures
        0 <= brand_ord(b) < NUM_BRANDS,
        brand_at(brand_ord(b)) == b,
        0 <= i < NUM_BRANDS ==> brand_ord(brand_at(i)) == i,
{
}

impl Brand {
    /// The brand with ordinal `brand`.
    #[must_use]
    pub fn from_usize(brand: usize) -> (r: Self)
        requires
            brand < NUM_BRANDS,
        ensures
            r == brand_at(brand as int),
            brand_ord(r) == brand,
    {
        if brand == 0 {
            Brand::B00
        } else if brand == 1 {
            Brand::B01
        } else if brand == 2 {
            Brand::B02
        } else if brand == 3 {
            Brand::B03
        } else if brand == 4 {
            Brand::B04
        } else if brand == 5 {
            Brand::B05
        } else if brand == 6 {
            Brand::B06
        } else if brand == 7 {
            Brand::B07
        } else if brand == 8 {
            Brand::B08
        } else if brand == 9 {
            Brand::B09
        } else if brand == 10 {
            Brand::B10
        } else if brand == 11 {
            Brand::B11
        } else if brand == 12 {
            Brand::B15
        } else if brand == 13 {
            Brand::B16
        } else if brand == 14 {
            Brand::B17
        } else if brand == 15 {
            Brand::B18
        } else if brand == 16 {
            Brand::B19
        } else if brand == 17 {
            Brand::B20
        } else if brand == 18 {
            Brand::B97
        } else if brand == 19 {
            Brand::B98
        } else if brand == 20 {
            Brand::B99
        } else {
            Brand::NoBrand
        }
    }

    /// The ordinal of this brand.
    #[must_use]
    pub fn ordinal(&self) -> (r: usize)
        ensures
            r == brand_ord(*self),
    {
        match self {
            Brand::B00 => 0,
            Brand::B01 => 1,
            Brand::B02 => 2,
            Brand::B03 => 3,
            Brand::B04 => 4,
            Brand::B05 => 5,
            Brand::B06 => 6,
            Brand::B07 => 7,
            Brand::B08 => 8,
            Brand::B09 => 9,
            Brand::B10 => 10,
            Brand::B11 => 11,
            Brand::B15 => 12,
            Brand::B16 => 13,
            Brand::B17 => 14,
            Brand::B18 => 15,
            Brand::B19 => 16,
            Brand::B20 => 17,
            Brand::B97 => 18,
            Brand::B98 => 19,
            Brand::B99 => 20,
            Brand::NoBrand => 21,
        }
    }

    /// The internal name.
    #[must_use]
    pub fn internal_name(&self) -> (r: &'static str)
        ensures
            r@ == brand_name(*self),
    {
        match self {
            Brand::B00 => "B00",
            Brand::B01 => "B01",
            Brand::B02 => "B02",
            Brand::B03 => "B03",
            Brand::B04 => "B04",
            Brand::B05 => "B05",
            Brand::B06 => "B06",
            Brand::B07 => "B07",
            Brand::B08 => "B08",
            Brand::B09 => "B09",
            Brand::B10 => "B10",
            Brand::B11 => "B11",
            Brand::B15 => "B15",
            Brand::B16 => "B16",
            Brand::B17 => "B17",
            Brand::B18 => "B18",
            Brand::B19 => "B19",
            Brand::B20 => "B20",
            Brand::B97 => "B97",
            Brand::B98 => "B98",
            Brand::B99 => "B99",
            Brand::NoBrand => "None",
        }
    }

    /// The brand whose internal name is `name`, matched exactly.
    #[must_use]
    pub fn from_name(name: &str) -> (r: Option<Self>)
        ensures
            match r {
                Some(b) => brand_name(b) == name@,
                None => forall|b: Brand| brand_name(b) != name@,
            },
    {
        let mut i: usize = 0;
        while i < NUM_BRANDS
            invariant
                i <= NUM_BRANDS,
                forall|j: int| 0 <= j < i ==> brand_name(#[trigger] brand_at(j)) != name@,
            decreases NUM_BRANDS - i,
        {
            let b = Brand::from_usize(i);
            if same_text(name, b.internal_name()) {
                return Some(b);
            }
            i += 1;
        }
        proof {
            assert forall|b: Brand| brand_name(b) != name@ by {
                lemma_brand_ord(b, 0);
                assert(brand_name(brand_at(brand_ord(b))) != name@);
            }
        }
        None
    }
}

/// Character-wise equality of two strings.
fn same_text(a: &str, b: &str) -> (r: bool)
    ensures
        r == (a@ == b@),
{
    let n = a.unicode_len();
    if n != b.unicode_len() {
        return false;
    }
    let mut i: usize = 0;
    while i < n
        invariant
            n == a@.len(),
            n == b@.len(),
            i <= n,
            forall|j: int| 0 <= j < i ==> a@[j] == b@[j],
        decreases n - i,
    {
        if a.get_char(i) != b.get_char(i) {
            return false;
        }
        i += 1;
    }
    assert(a@ =~= b@);
    true
}

} // verus!
