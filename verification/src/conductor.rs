//! The standard conductor sizes and their resistance.
//!
//! Resistances are whole numbers of micro-ohms per 1000 feet, at 75 °C.

use vstd::prelude::*;
use vstd::string::*;
use crate::text::{
    contains, contains_text, is_i32_text, lowercase_of, parses_as_i32, remove_char, same_text,
    to_lowercase, to_uppercase, trim, trimmed, uppercase_of, without_char,
};

verus! {

/// The metal of a conductor.
#[derive(Debug, Clone, Copy, PartialEq, Eq, Structural)]
pub enum ConductorMaterial {
    Copper,
    Aluminum,
}

impl ConductorMaterial {
    /// The material that a name in lower case stands for: aluminum for
    /// `aluminum` and `al`, copper for `copper`, `cu` and every other text.
    pub open spec fn named_lower(lower: Seq<char>) -> ConductorMaterial {
        if lower == "aluminum"@ || lower == "al"@ {
            ConductorMaterial::Aluminum
        } else {
            ConductorMaterial::Copper
        }
    }

    /// The material that a name stands for, whatever its case.
    pub open spec fn named(name: Seq<char>) -> ConductorMaterial {
        Self::named_lower(lowercase_of(name))
    }

    /// The material that a name in lower case stands for.
    pub fn from_lowercased(lower: &str) -> (r: ConductorMaterial)
        ensures
            r == Self::named_lower(lower@),
    {
        if same_text(lower, "aluminum") || same_text(lower, "al") {
            ConductorMaterial::Aluminum
        } else {
            ConductorMaterial::Copper
        }
    }

    /// The material that a name stands for, whatever its case; copper where
    /// the name is not known.
    pub fn from_name(name: &str) -> (r: ConductorMaterial)
        ensures
            r == Self::named(name@),
    {
        let lower = to_lowercase(name);
        Self::from_lowercased(lower.as_str())
    }
}

/// A standard conductor size, from 18 AWG, the thinnest, to 1000 MCM, the
/// thickest.
#[derive(Debug, Clone, Copy, PartialEq, Eq, Structural)]
pub enum ConductorSize {
    Awg18,
    Awg16,
    Awg14,
    Awg12,
    Awg10,
    Awg8,
    Awg6,
    Awg4,
    Awg3,
    Awg2,
    Awg1,
    Awg1_0,
    Awg2_0,
    Awg3_0,
    Awg4_0,
    Mcm250,
    Mcm300,
    Mcm350,
    Mcm400,
    Mcm500,
    Mcm600,
    Mcm750,
    Mcm1000,
}

/// The number of standard sizes.
pub const SIZE_COUNT: u8 = 23;

impl ConductorSize {
    /// The place of a size among the standard sizes, counted from the
    /// thinnest, which has rank 0.
    pub open spec fn rank(self) -> nat {
        match self {
            ConductorSize::Awg18 => 0,
            ConductorSize::Awg16 => 1,
            ConductorSize::Awg14 => 2,
            ConductorSize::Awg12 => 3,
            ConductorSize::Awg10 => 4,
            ConductorSize::Awg8 => 5,
            ConductorSize::Awg6 => 6,
            ConductorSize::Awg4 => 7,
            ConductorSize::Awg3 => 8,
            ConductorSize::Awg2 => 9,
            ConductorSize::Awg1 => 10,
            ConductorSize::Awg1_0 => 11,
            ConductorSize::Awg2_0 => 12,
            ConductorSize::Awg3_0 => 13,
            ConductorSize::Awg4_0 => 14,
            ConductorSize::Mcm250 => 15,
            ConductorSize::Mcm300 => 16,
            ConductorSize::Mcm350 => 17,
            ConductorSize::Mcm400 => 18,
            ConductorSize::Mcm500 => 19,
            ConductorSize::Mcm600 => 20,
            ConductorSize::Mcm750 => 21,
            ConductorSize::Mcm1000 => 22,
        }
    }

    /// The size with a given rank, if there is one.
    pub open spec fn at(rank: int) -> Option<ConductorSize> {
        if rank == 0 {
            Some(ConductorSize::Awg18)
        } else if rank == 1 {
            Some(ConductorSize::Awg16)
        } else if rank == 2 {
            Some(ConductorSize::Awg14)
        } else if rank == 3 {
            Some(ConductorSize::Awg12)
        } else if rank == 4 {
            Some(ConductorSize::Awg10)
        } else if rank == 5 {
            Some(ConductorSize::Awg8)
        } else if rank == 6 {
            Some(ConductorSize::Awg6)
        } else if rank == 7 {
            Some(ConductorSize::Awg4)
        } else if rank == 8 {
            Some(ConductorSize::Awg3)
        } else if rank == 9 {
            Some(ConductorSize::Awg2)
        } else if rank == 10 {
            Some(ConductorSize::Awg1)
        } else if rank == 11 {
            Some(ConductorSize::Awg1_0)
        } else if rank == 12 {
            Some(ConductorSize::Awg2_0)
        } else if rank == 13 {
            Some(ConductorSize::Awg3_0)
        } else if rank == 14 {
            Some(ConductorSize::Awg4_0)
        } else if rank == 15 {
            Some(ConductorSize::Mcm250)
        } else if rank == 16 {
            Some(ConductorSize::Mcm300)
        } else if rank == 17 {
            Some(ConductorSize::Mcm350)
        } else if rank == 18 {
            Some(ConductorSize::Mcm400)
        } else if rank == 19 {
            Some(ConductorSize::Mcm500)
        } else if rank == 20 {
            Some(ConductorSize::Mcm600)
        } else if rank == 21 {
            Some(ConductorSize::Mcm750)
        } else if rank == 22 {
            Some(ConductorSize::Mcm1000)
        } else {
            None
        }
    }

    /// The name under which a size is listed.
    pub open spec fn name_text(self) -> Seq<char> {
        match self {
            ConductorSize::Awg18 => "18 AWG"@,
            ConductorSize::Awg16 => "16 AWG"@,
            ConductorSize::Awg14 => "14 AWG"@,
            ConductorSize::Awg12 => "12 AWG"@,
            ConductorSize::Awg10 => "10 AWG"@,
            ConductorSize::Awg8 => "8 AWG"@,
            ConductorSize::Awg6 => "6 AWG"@,
            ConductorSize::Awg4 => "4 AWG"@,
            ConductorSize::Awg3 => "3 AWG"@,
            ConductorSize::Awg2 => "2 AWG"@,
            ConductorSize::Awg1 => "1 AWG"@,
            ConductorSize::Awg1_0 => "1/0 AWG"@,
            ConductorSize::Awg2_0 => "2/0 AWG"@,
            ConductorSize::Awg3_0 => "3/0 AWG"@,
            ConductorSize::Awg4_0 => "4/0 AWG"@,
            ConductorSize::Mcm250 => "250 MCM"@,
            ConductorSize::Mcm300 => "300 MCM"@,
            ConductorSize::Mcm350 => "350 MCM"@,
            ConductorSize::Mcm400 => "400 MCM"@,
            ConductorSize::Mcm500 => "500 MCM"@,
            ConductorSize::Mcm600 => "600 MCM"@,
            ConductorSize::Mcm750 => "750 MCM"@,
            ConductorSize::Mcm1000 => "1000 MCM"@,
        }
    }

    /// The resistance of a conductor of this size, in micro-ohms per 1000
    /// feet.
    pub open spec fn resistance_micro_ohms(self, material: ConductorMaterial) -> int {
        match material {
            ConductorMaterial::Copper => match self {
                ConductorSize::Awg18 => 7_770_000,
                ConductorSize::Awg16 => 4_890_000,
                ConductorSize::Awg14 => 3_070_000,
                ConductorSize::Awg12 => 1_930_000,
                ConductorSize::Awg10 => 1_210_000,
                ConductorSize::Awg8 => 764_000,
                ConductorSize::Awg6 => 491_000,
                ConductorSize::Awg4 => 308_000,
                ConductorSize::Awg3 => 245_000,
                ConductorSize::Awg2 => 194_000,
                ConductorSize::Awg1 => 154_000,
                ConductorSize::Awg1_0 => 122_000,
                ConductorSize::Awg2_0 => 96_700,
                ConductorSize::Awg3_0 => 76_600,
                ConductorSize::Awg4_0 => 60_800,
                ConductorSize::Mcm250 => 51_500,
                ConductorSize::Mcm300 => 42_900,
                ConductorSize::Mcm350 => 36_700,
                ConductorSize::Mcm400 => 32_100,
                ConductorSize::Mcm500 => 25_800,
                ConductorSize::Mcm600 => 21_400,
                ConductorSize::Mcm750 => 17_100,
                ConductorSize::Mcm1000 => 12_900,
            },
            ConductorMaterial::Aluminum => match self {
                ConductorSize::Awg18 => 12_800_000,
                ConductorSize::Awg16 => 8_050_000,
                ConductorSize::Awg14 => 5_060_000,
                ConductorSize::Awg12 => 3_180_000,
                ConductorSize::Awg10 => 2_000_000,
                ConductorSize::Awg8 => 1_260_000,
                ConductorSize::Awg6 => 808_000,
                ConductorSize::Awg4 => 508_000,
                ConductorSize::Awg3 => 403_000,
                ConductorSize::Awg2 => 319_000,
                ConductorSize::Awg1 => 253_000,
                ConductorSize::Awg1_0 => 201_000,
                ConductorSize::Awg2_0 => 159_000,
                ConductorSize::Awg3_0 => 126_000,
                ConductorSize::Awg4_0 => 100_000,
                ConductorSize::Mcm250 => 84_700,
                ConductorSize::Mcm300 => 70_700,
                ConductorSize::Mcm350 => 60_500,
                ConductorSize::Mcm400 => 52_900,
                ConductorSize::Mcm500 => 42_400,
                ConductorSize::Mcm600 => 35_300,
                ConductorSize::Mcm750 => 28_200,
                ConductorSize::Mcm1000 => 21_200,
            },
        }
    }

    /// The size listed under a name, if the name is that of a size.
    pub open spec fn named(text: Seq<char>) -> Option<ConductorSize> {
        if exists|size: ConductorSize| size.name_text() == text {
            Some(choose|size: ConductorSize| size.name_text() == text)
        } else {
            None
        }
    }

    /// The rank of the thinnest size that is standard in a material: every
    /// size in copper, 12 AWG and thicker in aluminum.
    pub open spec fn thinnest_rank(material: ConductorMaterial) -> nat {
        match material {
            ConductorMaterial::Copper => 0,
            ConductorMaterial::Aluminum => 3,
        }
    }

    /// A size that is standard for power wiring in a material.
    pub open spec fn is_standard_in(self, material: ConductorMaterial) -> bool {
        self.rank() >= Self::thinnest_rank(material)
    }

    /// The rank of this size.
    pub fn rank_number(self) -> (r: u8)
        ensures
            r == self.rank(),
            r < SIZE_COUNT,
            Self::at(r as int) == Some(self),
    {
        match self {
            ConductorSize::Awg18 => 0,
            ConductorSize::Awg16 => 1,
            ConductorSize::Awg14 => 2,
            ConductorSize::Awg12 => 3,
            ConductorSize::Awg10 => 4,
            ConductorSize::Awg8 => 5,
            ConductorSize::Awg6 => 6,
            ConductorSize::Awg4 => 7,
            ConductorSize::Awg3 => 8,
            ConductorSize::Awg2 => 9,
            ConductorSize::Awg1 => 10,
            ConductorSize::Awg1_0 => 11,
            ConductorSize::Awg2_0 => 12,
            ConductorSize::Awg3_0 => 13,
            ConductorSize::Awg4_0 => 14,
            ConductorSize::Mcm250 => 15,
            ConductorSize::Mcm300 => 16,
            ConductorSize::Mcm350 => 17,
            ConductorSize::Mcm400 => 18,
            ConductorSize::Mcm500 => 19,
            ConductorSize::Mcm600 => 20,
            ConductorSize::Mcm750 => 21,
            ConductorSize::Mcm1000 => 22,
        }
    }

    /// The size with a given rank; `None` for a rank of 23 or more.
    pub fn from_rank(rank: u8) -> (r: Option<ConductorSize>)
        ensures
            r == Self::at(rank as int),
            r is Some <==> rank < SIZE_COUNT,
            r matches Some(size) ==> size.rank() == rank,
    {
        match rank {
            0 => Some(ConductorSize::Awg18),
            1 => Some(ConductorSize::Awg16),
            2 => Some(ConductorSize::Awg14),
            3 => Some(ConductorSize::Awg12),
            4 => Some(ConductorSize::Awg10),
            5 => Some(ConductorSize::Awg8),
            6 => Some(ConductorSize::Awg6),
            7 => Some(ConductorSize::Awg4),
            8 => Some(ConductorSize::Awg3),
            9 => Some(ConductorSize::Awg2),
            10 => Some(ConductorSize::Awg1),
            11 => Some(ConductorSize::Awg1_0),
            12 => Some(ConductorSize::Awg2_0),
            13 => Some(ConductorSize::Awg3_0),
            14 => Some(ConductorSize::Awg4_0),
            15 => Some(ConductorSize::Mcm250),
            16 => Some(ConductorSize::Mcm300),
            17 => Some(ConductorSize::Mcm350),
            18 => Some(ConductorSize::Mcm400),
            19 => Some(ConductorSize::Mcm500),
            20 => Some(ConductorSize::Mcm600),
            21 => Some(ConductorSize::Mcm750),
            22 => Some(ConductorSize::Mcm1000),
            _ => None,
        }
    }

    /// The name under which this size is listed, such as `"12 AWG"`.
    pub fn name(self) -> (r: &'static str)
        ensures
            r@ == self.name_text(),
    {
        match self {
            ConductorSize::Awg18 => "18 AWG",
            ConductorSize::Awg16 => "16 AWG",
            ConductorSize::Awg14 => "14 AWG",
            ConductorSize::Awg12 => "12 AWG",
            ConductorSize::Awg10 => "10 AWG",
            ConductorSize::Awg8 => "8 AWG",
            ConductorSize::Awg6 => "6 AWG",
            ConductorSize::Awg4 => "4 AWG",
            ConductorSize::Awg3 => "3 AWG",
            ConductorSize::Awg2 => "2 AWG",
            ConductorSize::Awg1 => "1 AWG",
            ConductorSize::Awg1_0 => "1/0 AWG",
            ConductorSize::Awg2_0 => "2/0 AWG",
            ConductorSize::Awg3_0 => "3/0 AWG",
            ConductorSize::Awg4_0 => "4/0 AWG",
            ConductorSize::Mcm250 => "250 MCM",
            ConductorSize::Mcm300 => "300 MCM",
            ConductorSize::Mcm350 => "350 MCM",
            ConductorSize::Mcm400 => "400 MCM",
            ConductorSize::Mcm500 => "500 MCM",
            ConductorSize::Mcm600 => "600 MCM",
            ConductorSize::Mcm750 => "750 MCM",
            ConductorSize::Mcm1000 => "1000 MCM",
        }
    }

    /// The resistance of a conductor of this size in micro-ohms per 1000 feet.
    pub fn resistance(self, material: ConductorMaterial) -> (r: u32)
        ensures
            r == self.resistance_micro_ohms(material),
            0 < r <= 12_800_000,
    {
        match material {
            ConductorMaterial::Copper => match self {
                ConductorSize::Awg18 => 7_770_000,
                ConductorSize::Awg16 => 4_890_000,
                ConductorSize::Awg14 => 3_070_000,
                ConductorSize::Awg12 => 1_930_000,
                ConductorSize::Awg10 => 1_210_000,
                ConductorSize::Awg8 => 764_000,
                ConductorSize::Awg6 => 491_000,
                ConductorSize::Awg4 => 308_000,
                ConductorSize::Awg3 => 245_000,
                ConductorSize::Awg2 => 194_000,
                ConductorSize::Awg1 => 154_000,
                ConductorSize::Awg1_0 => 122_000,
                ConductorSize::Awg2_0 => 96_700,
                ConductorSize::Awg3_0 => 76_600,
                ConductorSize::Awg4_0 => 60_800,
                ConductorSize::Mcm250 => 51_500,
                ConductorSize::Mcm300 => 42_900,
                ConductorSize::Mcm350 => 36_700,
                ConductorSize::Mcm400 => 32_100,
                ConductorSize::Mcm500 => 25_800,
                ConductorSize::Mcm600 => 21_400,
                ConductorSize::Mcm750 => 17_100,
                ConductorSize::Mcm1000 => 12_900,
            },
            ConductorMaterial::Aluminum => match self {
                ConductorSize::Awg18 => 12_800_000,
                ConductorSize::Awg16 => 8_050_000,
                ConductorSize::Awg14 => 5_060_000,
                ConductorSize::Awg12 => 3_180_000,
                ConductorSize::Awg10 => 2_000_000,
                ConductorSize::Awg8 => 1_260_000,
                ConductorSize::Awg6 => 808_000,
                ConductorSize::Awg4 => 508_000,
                ConductorSize::Awg3 => 403_000,
                ConductorSize::Awg2 => 319_000,
                ConductorSize::Awg1 => 253_000,
                ConductorSize::Awg1_0 => 201_000,
                ConductorSize::Awg2_0 => 159_000,
                ConductorSize::Awg3_0 => 126_000,
                ConductorSize::Awg4_0 => 100_000,
                ConductorSize::Mcm250 => 84_700,
                ConductorSize::Mcm300 => 70_700,
                ConductorSize::Mcm350 => 60_500,
                ConductorSize::Mcm400 => 52_900,
                ConductorSize::Mcm500 => 42_400,
                ConductorSize::Mcm600 => 35_300,
                ConductorSize::Mcm750 => 28_200,
                ConductorSize::Mcm1000 => 21_200,
            },
        }
    }

    /// The size listed under `name`, taken letter for letter.
    pub fn from_name(name: &str) -> (r: Option<ConductorSize>)
        ensures
            r == Self::named(name@),
    {
        let mut rank: u8 = 0;
        while rank < SIZE_COUNT
            invariant
                rank <= SIZE_COUNT,
                forall|k: int|
                    0 <= k < rank ==> (#[trigger] Self::at(k)).unwrap().name_text() != name@,
            decreases SIZE_COUNT - rank,
        {
            let size = Self::from_rank(rank).unwrap();
            if same_text(name, size.name()) {
                proof {
                    lemma_names_are_distinct(size, Self::named(name@).unwrap());
                }
                return Some(size);
            }
            rank += 1;
        }
        proof {
            assert forall|size: ConductorSize| size.name_text() != name@ by {
                assert(Self::at(size.rank() as int) == Some(size));
            }
        }
        None
    }
}

/// The listed form of a size written in upper case. Leading and trailing
/// white space goes. A text that holds `AWG` or `MCM` is then left as it is;
/// one that holds `#` loses every `#` and the white space around the rest,
/// and gets ` AWG` behind it; one that writes a 32-bit integer gets ` AWG`
/// behind it; any other is left as it is.
pub open spec fn normalized_upper(upper: Seq<char>) -> Seq<char> {
    let t = trimmed(upper);
    if contains_text(t, "AWG"@) || contains_text(t, "MCM"@) {
        t
    } else if contains_text(t, "#"@) {
        trimmed(without_char(t, '#')) + " AWG"@
    } else if is_i32_text(t) {
        t + " AWG"@
    } else {
        t
    }
}

/// The listed form of a size as a user writes it: the normal form of its
/// upper-case form.
pub open spec fn normalized_size(size: Seq<char>) -> Seq<char> {
    normalized_upper(uppercase_of(size))
}

/// The standard size that a text stands for: the size listed under the text
/// itself, else the size listed under its normal form.
pub open spec fn resolved_size(size: Seq<char>) -> Option<ConductorSize> {
    match ConductorSize::named(size) {
        Some(listed) => Some(listed),
        None => ConductorSize::named(normalized_size(size)),
    }
}

/// Brings a size that is already in upper case into its listed form.
pub fn normalize_uppercased(upper: &str) -> (r: String)
    ensures
        r@ == normalized_upper(upper@),
{
    let t = trim(upper);
    if contains(t, "AWG") || contains(t, "MCM") {
        String::from_str(t)
    } else if contains(t, "#") {
        let bare = remove_char(t, '#');
        let mut listed = String::from_str(trim(bare.as_str()));
        listed.append(" AWG");
        listed
    } else if parses_as_i32(t) {
        let mut listed = String::from_str(t);
        listed.append(" AWG");
        listed
    } else {
        String::from_str(t)
    }
}

/// Brings a size as a user writes it into its listed form.
pub fn normalize_size(size: &str) -> (r: String)
    ensures
        r@ == normalized_size(size@),
{
    let upper = to_uppercase(size);
    normalize_uppercased(upper.as_str())
}

/// The standard size that a text stands for.
pub fn resolve_size(size: &str) -> (r: Option<ConductorSize>)
    ensures
        r == resolved_size(size@),
{
    match ConductorSize::from_name(size) {
        Some(listed) => Some(listed),
        None => {
            let listed = normalize_size(size);
            ConductorSize::from_name(listed.as_str())
        },
    }
}

/// The name of a size stands for that size.
pub proof fn lemma_name_resolves(size: ConductorSize)
    ensures
        ConductorSize::named(size.name_text()) == Some(size),
        resolved_size(size.name_text()) == Some(size),
{
    lemma_names_are_distinct(size, ConductorSize::named(size.name_text()).unwrap());
}

/// Two sizes listed under the same name are the same size.
pub proof fn lemma_names_are_distinct(a: ConductorSize, b: ConductorSize)
    requires
        a.name_text() == b.name_text(),
    ensures
        a == b,
{
    reveal_strlit("18 AWG");
    reveal_strlit("16 AWG");
    reveal_strlit("14 AWG");
    reveal_strlit("12 AWG");
    reveal_strlit("10 AWG");
    reveal_strlit("8 AWG");
    reveal_strlit("6 AWG");
    reveal_strlit("4 AWG");
    reveal_strlit("3 AWG");
    reveal_strlit("2 AWG");
    reveal_strlit("1 AWG");
    reveal_strlit("1/0 AWG");
    reveal_strlit("2/0 AWG");
    reveal_strlit("3/0 AWG");
    reveal_strlit("4/0 AWG");
    reveal_strlit("250 MCM");
    reveal_strlit("300 MCM");
    reveal_strlit("350 MCM");
    reveal_strlit("400 MCM");
    reveal_strlit("500 MCM");
    reveal_strlit("600 MCM");
    reveal_strlit("750 MCM");
    reveal_strlit("1000 MCM");
    let s = a.name_text();
    let t = b.name_text();
    assert(s.len() == t.len());
    assert(s[0] == t[0]);
    assert(s[1] == t[1]);
    assert(s[2] == t[2]);
}

/// A thicker conductor has the lower resistance, in either material.
pub proof fn lemma_thicker_resists_less(
    thin: ConductorSize,
    thick: ConductorSize,
    material: ConductorMaterial,
)
    requires
        thin.rank() < thick.rank(),
    ensures
        thin.resistance_micro_ohms(material) > thick.resistance_micro_ohms(material),
{
}

/// Every resistance in the table is positive and at most 12.8 ohms per 1000
/// feet.
pub proof fn lemma_resistance_bounds(size: ConductorSize, material: ConductorMaterial)
    ensures
        0 < size.resistance_micro_ohms(material) <= 12_800_000,
{
}

} // verus!
