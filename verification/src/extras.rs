//! The filter predicates ("extras") a caller can configure.
//!
//! Each predicate reads exactly one flag of a record's
//! [`Contents`](crate::meal::Contents) and has a polarity: an
//! inclusive predicate keeps only records whose flag is set, an
//! exclusive one keeps only records whose flag is clear. `Unknown`
//! stands for an unrecognised predicate name and keeps everything.

use vstd::prelude::*;

use crate::meal::Contents;
use crate::strutil::string_eq_str;

verus! {

/// A named filter criterion over a record's content flags.
#[derive(Debug, Clone, Copy, PartialEq, Eq, Structural)]
pub enum Extras {
    /// Inclusive: keep records flagged vegan.
    Vegan,
    /// Inclusive: keep records flagged vegetarian.
    Vegetarian,
    /// Inclusive: keep records flagged lactose-free.
    LactoseFree,
    /// Inclusive: keep records flagged as containing alcohol.
    Alcohol,
    /// Exclusive: drop records containing beef.
    BeefFree,
    /// Exclusive: drop records containing fish.
    Fish,
    /// Exclusive: drop records containing gelatine.
    GelatineFree,
    /// Exclusive: drop records containing lamb.
    LambFree,
    /// Exclusive: drop records containing pig.
    PigFree,
    /// Exclusive: drop records containing poultry.
    PoultryFree,
    /// An unrecognised predicate; it never drops a record.
    Unknown,
}

/// Whether a record with content flags `c` satisfies the predicate
/// `e`: inclusive predicates demand their flag set, exclusive ones
/// demand it clear.
pub open spec fn spec_matches_extra(c: Contents, e: Extras) -> bool {
    match e {
        Extras::Vegan => c.vegan,
        Extras::Vegetarian => c.vegetarian,
        Extras::LactoseFree => c.lactose_free,
        Extras::Alcohol => c.alcohol,
        Extras::BeefFree => !c.beef,
        Extras::Fish => !c.fish,
        Extras::GelatineFree => !c.gelatine,
        Extras::LambFree => !c.lamb,
        Extras::PigFree => !c.pig,
        Extras::PoultryFree => !c.poultry,
        Extras::Unknown => true,
    }
}

/// Evaluates one predicate against one record's content flags.
pub fn matches_extra(c: &Contents, e: &Extras) -> (r: bool)
    ensures
        r == spec_matches_extra(*c, *e),
{
    match e {
        Extras::Vegan => c.vegan,
        Extras::Vegetarian => c.vegetarian,
        Extras::LactoseFree => c.lactose_free,
        Extras::Alcohol => c.alcohol,
        Extras::BeefFree => !c.beef,
        Extras::Fish => !c.fish,
        Extras::GelatineFree => !c.gelatine,
        Extras::LambFree => !c.lamb,
        Extras::PigFree => !c.pig,
        Extras::PoultryFree => !c.poultry,
        Extras::Unknown => true,
    }
}

/// The spelling each predicate is stored under in the configuration.
pub open spec fn spec_extra_name(e: Extras) -> Seq<char> {
    match e {
        Extras::Vegan => "Vegan"@,
        Extras::Vegetarian => "Vegetarian"@,
        Extras::LactoseFree => "LactoseFree"@,
        Extras::Alcohol => "Alcohol"@,
        Extras::BeefFree => "Beeffree"@,
        Extras::Fish => "Fish"@,
        Extras::GelatineFree => "Gelatinefree"@,
        Extras::LambFree => "Lambfree"@,
        Extras::PigFree => "Pigfree"@,
        Extras::PoultryFree => "Poultryfree"@,
        Extras::Unknown => "Unknown"@,
    }
}

/// Which predicate a user-supplied name denotes, after its first
/// letter is upper-cased; every stored spelling of [`spec_extra_name`]
/// is recognised, and unrecognised names map to `Unknown`.
pub open spec fn spec_extra_from(s: Seq<char>) -> Extras {
    let c = crate::strutil::spec_capitalize_first(s);
    if c == "Vegan"@ {
        Extras::Vegan
    } else if c == "Vegetarian"@ {
        Extras::Vegetarian
    } else if c == "Lactosefree"@ || c == "LactoseFree"@ {
        Extras::LactoseFree
    } else if c == "Alcohol"@ {
        Extras::Alcohol
    } else if c == "Beeffree"@ {
        Extras::BeefFree
    } else if c == "Fish"@ {
        Extras::Fish
    } else if c == "Gelatinefree"@ {
        Extras::GelatineFree
    } else if c == "Lambfree"@ {
        Extras::LambFree
    } else if c == "Pigfree"@ {
        Extras::PigFree
    } else if c == "Poultryfree"@ {
        Extras::PoultryFree
    } else {
        Extras::Unknown
    }
}

impl Extras {
    /// Upper-cases a name's first ASCII letter, the normalisation
    /// applied before a predicate name is recognised.
    pub fn capitalize_first(s: &str) -> (r: String)
        ensures
            r@ == crate::strutil::spec_capitalize_first(s@),
    {
        let n = s.unicode_len();
        if n == 0 {
            return String::new();
        }
        let mut out = String::new();
        crate::strutil::push_char(&mut out, crate::strutil::upper_char(s.get_char(0)));
        out.append(s.substring_char(1, n));
        proof {
            assert(out@ =~= crate::strutil::spec_capitalize_first(s@));
        }
        out
    }

    /// The predicate's stored spelling.
    pub fn as_str(&self) -> (r: &str)
        ensures
            r@ == spec_extra_name(*self),
    {
        match self {
            Extras::Vegan => "Vegan",
            Extras::Vegetarian => "Vegetarian",
            Extras::LactoseFree => "LactoseFree",
            Extras::Alcohol => "Alcohol",
            Extras::BeefFree => "Beeffree",
            Extras::Fish => "Fish",
            Extras::GelatineFree => "Gelatinefree",
            Extras::LambFree => "Lambfree",
            Extras::PigFree => "Pigfree",
            Extras::PoultryFree => "Poultryfree",
            Extras::Unknown => "Unknown",
        }
    }

    /// Recognises a predicate name, tolerating a lower-case first
    /// letter; the spelling [`Extras::as_str`] stores always reads
    /// back as its predicate, and anything unrecognised becomes
    /// `Unknown`.
    pub fn from_str(s: &str) -> (r: Extras)
        ensures
            r == spec_extra_from(s@),
    {
        let cap = Self::capitalize_first(s);
        if string_eq_str(&cap, "Vegan") {
            Extras::Vegan
        } else if string_eq_str(&cap, "Vegetarian") {
            Extras::Vegetarian
        } else if string_eq_str(&cap, "Lactosefree") || string_eq_str(&cap, "LactoseFree") {
            Extras::LactoseFree
        } else if string_eq_str(&cap, "Alcohol") {
            Extras::Alcohol
        } else if string_eq_str(&cap, "Beeffree") {
            Extras::BeefFree
        } else if string_eq_str(&cap, "Fish") {
            Extras::Fish
        } else if string_eq_str(&cap, "Gelatinefree") {
            Extras::GelatineFree
        } else if string_eq_str(&cap, "Lambfree") {
            Extras::LambFree
        } else if string_eq_str(&cap, "Pigfree") {
            Extras::PigFree
        } else if string_eq_str(&cap, "Poultryfree") {
            Extras::PoultryFree
        } else {
            Extras::Unknown
        }
    }
}

/// The occupation a price would be chosen for. The cache and filter
/// layers never read it; it only travels with the configuration.
#[derive(Debug, Clone, Copy, PartialEq, Eq, Structural)]
pub enum Occupations {
    Student,
    Employee,
    Guest,
}

/// The spelling each occupation is stored under.
pub open spec fn spec_occupation_name(o: Occupations) -> Seq<char> {
    match o {
        Occupations::Student => "student"@,
        Occupations::Employee => "employee"@,
        Occupations::Guest => "guest"@,
    }
}

/// Which occupation a user-supplied name denotes, compared without
/// regard to ASCII case; unrecognised names denote none.
pub open spec fn spec_occupation_from(s: Seq<char>) -> Option<Occupations> {
    let l = crate::strutil::spec_lower(s);
    if l == "student"@ {
        Some(Occupations::Student)
    } else if l == "employee"@ {
        Some(Occupations::Employee)
    } else if l == "guest"@ {
        Some(Occupations::Guest)
    } else {
        None
    }
}

impl Occupations {
    /// The occupation's stored spelling.
    pub fn as_str(&self) -> (r: &str)
        ensures
            r@ == spec_occupation_name(*self),
    {
        match self {
            Occupations::Student => "student",
            Occupations::Employee => "employee",
            Occupations::Guest => "guest",
        }
    }

    /// Recognises an occupation name regardless of ASCII case.
    pub fn from_str(s: &str) -> (r: Option<Occupations>)
        ensures
            r == spec_occupation_from(s@),
    {
        let low = crate::strutil::to_ascii_lowercase(s);
        if string_eq_str(&low, "student") {
            Some(Occupations::Student)
        } else if string_eq_str(&low, "employee") {
            Some(Occupations::Employee)
        } else if string_eq_str(&low, "guest") {
            Some(Occupations::Guest)
        } else {
            None
        }
    }
}

} // verus!
