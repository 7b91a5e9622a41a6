//! The closed sets that the fields of a record are read into.
//!
//! Each set is reached from a numeric code by a total conversion: a code that
//! names no member gives the member `Invalid`. Species, moves and abilities
//! are kept as their codes, with zero for none; their names are not part of
//! this library.

use vstd::prelude::*;

verus! {

/// How a shiny creature sparkles.
#[derive(Clone, Copy, Debug, PartialEq, Eq, Structural)]
pub enum Shiny {
    Star,
    Square,
}

/// Six values, one for each stat.
#[derive(Clone, Copy, Debug, PartialEq, Eq, Structural)]
pub struct Stats {
    pub hp: u8,
    pub atk: u8,
    pub def: u8,
    pub spe: u8,
    pub spa: u8,
    pub spd: u8,
}

/// A species, by its number. Zero stands for no species.
#[derive(Clone, Copy, Debug, PartialEq, Eq, Structural)]
pub struct Species(pub u16);

impl Species {
    /// Whether this stands for no species: the code zero.
    pub fn is_none(&self) -> (none: bool)
        ensures
            none == (self.0 == 0),
    {
        self.0 == 0
    }
}

impl From<u16> for Species {
    fn from(code: u16) -> (value: Self) {
        Species(code)
    }
}

impl vstd::std_specs::convert::FromSpecImpl<u16> for Species {
    open spec fn obeys_from_spec() -> bool {
        true
    }

    open spec fn from_spec(code: u16) -> Self {
        Species(code)
    }
}

/// A move, by its number. Zero stands for an empty move slot.
#[derive(Clone, Copy, Debug, PartialEq, Eq, Structural)]
pub struct Move(pub u16);

impl Move {
    /// Whether this stands for no move: the code zero.
    pub fn is_none(&self) -> (none: bool)
        ensures
            none == (self.0 == 0),
    {
        self.0 == 0
    }
}

impl From<u16> for Move {
    fn from(code: u16) -> (value: Self) {
        Move(code)
    }
}

impl vstd::std_specs::convert::FromSpecImpl<u16> for Move {
    open spec fn obeys_from_spec() -> bool {
        true
    }

    open spec fn from_spec(code: u16) -> Self {
        Move(code)
    }
}

/// An ability, by its number. Zero stands for no ability.
#[derive(Clone, Copy, Debug, PartialEq, Eq, Structural)]
pub struct Ability(pub u16);

impl Ability {
    /// Whether this stands for no ability: the code zero.
    pub fn is_none(&self) -> (none: bool)
        ensures
            none == (self.0 == 0),
    {
        self.0 == 0
    }
}

impl From<u16> for Ability {
    fn from(code: u16) -> (value: Self) {
        Ability(code)
    }
}

impl vstd::std_specs::convert::FromSpecImpl<u16> for Ability {
    open spec fn obeys_from_spec() -> bool {
        true
    }

    open spec fn from_spec(code: u16) -> Self {
        Ability(code)
    }
}

/// Which of its species' abilities a creature has.
#[derive(Clone, Copy, Debug, PartialEq, Eq, Structural)]
pub enum AbilityNumber {
    First,
    Second,
    Hidden,
    /// Any code but 1, 2 and 4.
    Invalid,
}

impl AbilityNumber {
    /// The ability number that a code stands for.
    pub open spec fn of_code(code: u8) -> Self {
        match code {
            1 => AbilityNumber::First,
            2 => AbilityNumber::Second,
            4 => AbilityNumber::Hidden,
            _ => AbilityNumber::Invalid,
        }
    }

    /// The ability number that a code stands for.
    pub fn from_code(code: u8) -> (value: Self)
        ensures
            value == Self::of_code(code),
    {
        match code {
            1 => AbilityNumber::First,
            2 => AbilityNumber::Second,
            4 => AbilityNumber::Hidden,
            _ => AbilityNumber::Invalid,
        }
    }
}

impl From<u8> for AbilityNumber {
    fn from(code: u8) -> (value: Self) {
        Self::from_code(code)
    }
}

impl vstd::std_specs::convert::FromSpecImpl<u8> for AbilityNumber {
    open spec fn obeys_from_spec() -> bool {
        true
    }

    open spec fn from_spec(code: u8) -> Self {
        Self::of_code(code)
    }
}

/// A nature, in the order of the codes 0 to 24.
#[derive(Clone, Copy, Debug, PartialEq, Eq, Structural)]
pub enum Nature {
    Hardy,
    Lonely,
    Brave,
    Adamant,
    Naughty,
    Bold,
    Docile,
    Relaxed,
    Impish,
    Lax,
    Timid,
    Hasty,
    Serious,
    Jolly,
    Naive,
    Modest,
    Mild,
    Quiet,
    Bashful,
    Rash,
    Calm,
    Gentle,
    Sassy,
    Careful,
    Quirky,
    /// Any code above 24.
    Invalid,
}

impl Nature {
    /// The nature that a code stands for.
    pub open spec fn of_code(code: u8) -> Self {
        match code {
            0 => Nature::Hardy,
            1 => Nature::Lonely,
            2 => Nature::Brave,
            3 => Nature::Adamant,
            4 => Nature::Naughty,
            5 => Nature::Bold,
            6 => Nature::Docile,
            7 => Nature::Relaxed,
            8 => Nature::Impish,
            9 => Nature::Lax,
            10 => Nature::Timid,
            11 => Nature::Hasty,
            12 => Nature::Serious,
            13 => Nature::Jolly,
            14 => Nature::Naive,
            15 => Nature::Modest,
            16 => Nature::Mild,
            17 => Nature::Quiet,
            18 => Nature::Bashful,
            19 => Nature::Rash,
            20 => Nature::Calm,
            21 => Nature::Gentle,
            22 => Nature::Sassy,
            23 => Nature::Careful,
            24 => Nature::Quirky,
            _ => Nature::Invalid,
        }
    }

    /// The nature that a code stands for.
    pub fn from_code(code: u8) -> (value: Self)
        ensures
            value == Self::of_code(code),
    {
        match code {
            0 => Nature::Hardy,
            1 => Nature::Lonely,
            2 => Nature::Brave,
            3 => Nature::Adamant,
            4 => Nature::Naughty,
            5 => Nature::Bold,
            6 => Nature::Docile,
            7 => Nature::Relaxed,
            8 => Nature::Impish,
            9 => Nature::Lax,
            10 => Nature::Timid,
            11 => Nature::Hasty,
            12 => Nature::Serious,
            13 => Nature::Jolly,
            14 => Nature::Naive,
            15 => Nature::Modest,
            16 => Nature::Mild,
            17 => Nature::Quiet,
            18 => Nature::Bashful,
            19 => Nature::Rash,
            20 => Nature::Calm,
            21 => Nature::Gentle,
            22 => Nature::Sassy,
            23 => Nature::Careful,
            24 => Nature::Quirky,
            _ => Nature::Invalid,
        }
    }
}

impl From<u8> for Nature {
    fn from(code: u8) -> (value: Self) {
        Self::from_code(code)
    }
}

impl vstd::std_specs::convert::FromSpecImpl<u8> for Nature {
    open spec fn obeys_from_spec() -> bool {
        true
    }

    open spec fn from_spec(code: u8) -> Self {
        Self::of_code(code)
    }
}

/// A gender, in the order of the codes 0 to 2.
#[derive(Clone, Copy, Debug, PartialEq, Eq, Structural)]
pub enum Gender {
    Male,
    Female,
    Genderless,
    /// Any code above 2.
    Invalid,
}

impl Gender {
    /// The gender that a code stands for.
    pub open spec fn of_code(code: u8) -> Self {
        match code {
            0 => Gender::Male,
            1 => Gender::Female,
            2 => Gender::Genderless,
            _ => Gender::Invalid,
        }
    }

    /// The gender that a code stands for.
    pub fn from_code(code: u8) -> (value: Self)
        ensures
            value == Self::of_code(code),
    {
        match code {
            0 => Gender::Male,
            1 => Gender::Female,
            2 => Gender::Genderless,
            _ => Gender::Invalid,
        }
    }
}

impl From<u8> for Gender {
    fn from(code: u8) -> (value: Self) {
        Self::from_code(code)
    }
}

impl vstd::std_specs::convert::FromSpecImpl<u8> for Gender {
    open spec fn obeys_from_spec() -> bool {
        true
    }

    open spec fn from_spec(code: u8) -> Self {
        Self::of_code(code)
    }
}

/// The language of the game that a creature comes from.
#[derive(Clone, Copy, Debug, PartialEq, Eq, Structural)]
pub enum Language {
    Japanese,
    English,
    French,
    Italian,
    German,
    Spanish,
    Korean,
    ChineseSimplified,
    ChineseTraditional,
    /// Any code that names no language: 0, 6, and all above 10.
    Invalid,
}

impl Language {
    /// The language that a code stands for.
    pub open spec fn of_code(code: u8) -> Self {
        match code {
            1 => Language::Japanese,
            2 => Language::English,
            3 => Language::French,
            4 => Language::Italian,
            5 => Language::German,
            7 => Language::Spanish,
            8 => Language::Korean,
            9 => Language::ChineseSimplified,
            10 => Language::ChineseTraditional,
            _ => Language::Invalid,
        }
    }

    /// The language that a code stands for.
    pub fn from_code(code: u8) -> (value: Self)
        ensures
            value == Self::of_code(code),
    {
        match code {
            1 => Language::Japanese,
            2 => Language::English,
            3 => Language::French,
            4 => Language::Italian,
            5 => Language::German,
            7 => Language::Spanish,
            8 => Language::Korean,
            9 => Language::ChineseSimplified,
            10 => Language::ChineseTraditional,
            _ => Language::Invalid,
        }
    }
}

impl From<u8> for Language {
    fn from(code: u8) -> (value: Self) {
        Self::from_code(code)
    }
}

impl vstd::std_specs::convert::FromSpecImpl<u8> for Language {
    open spec fn obeys_from_spec() -> bool {
        true
    }

    open spec fn from_spec(code: u8) -> Self {
        Self::of_code(code)
    }
}

/// The type of the move Hidden Power, in the order of the indices 0 to 15.
#[derive(Clone, Copy, Debug, PartialEq, Eq, Structural)]
pub enum HiddenPower {
    Fighting,
    Flying,
    Poison,
    Ground,
    Rock,
    Bug,
    /// The type Ghost.
    GhostType,
    Steel,
    Fire,
    Water,
    Grass,
    Electric,
    Psychic,
    Ice,
    Dragon,
    Dark,
    /// Any index above 15.
    Invalid,
}

impl HiddenPower {
    /// The type of Hidden Power that a code stands for.
    pub open spec fn of_code(code: u8) -> Self {
        match code {
            0 => HiddenPower::Fighting,
            1 => HiddenPower::Flying,
            2 => HiddenPower::Poison,
            3 => HiddenPower::Ground,
            4 => HiddenPower::Rock,
            5 => HiddenPower::Bug,
            6 => HiddenPower::GhostType,
            7 => HiddenPower::Steel,
            8 => HiddenPower::Fire,
            9 => HiddenPower::Water,
            10 => HiddenPower::Grass,
            11 => HiddenPower::Electric,
            12 => HiddenPower::Psychic,
            13 => HiddenPower::Ice,
            14 => HiddenPower::Dragon,
            15 => HiddenPower::Dark,
            _ => HiddenPower::Invalid,
        }
    }

    /// The type of Hidden Power that a code stands for.
    pub fn from_code(code: u8) -> (value: Self)
        ensures
            value == Self::of_code(code),
    {
        match code {
            0 => HiddenPower::Fighting,
            1 => HiddenPower::Flying,
            2 => HiddenPower::Poison,
            3 => HiddenPower::Ground,
            4 => HiddenPower::Rock,
            5 => HiddenPower::Bug,
            6 => HiddenPower::GhostType,
            7 => HiddenPower::Steel,
            8 => HiddenPower::Fire,
            9 => HiddenPower::Water,
            10 => HiddenPower::Grass,
            11 => HiddenPower::Electric,
            12 => HiddenPower::Psychic,
            13 => HiddenPower::Ice,
            14 => HiddenPower::Dragon,
            15 => HiddenPower::Dark,
            _ => HiddenPower::Invalid,
        }
    }
}

impl From<u8> for HiddenPower {
    fn from(code: u8) -> (value: Self) {
        Self::from_code(code)
    }
}

impl vstd::std_specs::convert::FromSpecImpl<u8> for HiddenPower {
    open spec fn obeys_from_spec() -> bool {
        true
    }

    open spec fn from_spec(code: u8) -> Self {
        Self::of_code(code)
    }
}

} // verus!
