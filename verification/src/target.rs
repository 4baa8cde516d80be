//! The closed set of run categories and their string form.

use crate::text::{chars_of, spells};
use vstd::prelude::*;

verus! {

/// The category of a run. The set is closed: a string names a category only
/// if it is, letter for letter, one of the fourteen names below.
#[derive(Clone, Copy, Debug, PartialEq, Eq, Hash, Structural)]
pub enum RunTarget {
    Pit,
    Andariel,
    Cows,
    Countess,
    ArcaneSanctuary,
    AncientTunnels,
    Travincal,
    Mephisto,
    Chaos,
    Pindle,
    Shenk,
    Eldritch,
    Worldstone,
    Baal,
}

/// The error of a failed category lookup, as `strum` defines it. Its one
/// variant carries no data, so a value says only that no variant matched.
#[verifier::external_type_specification]
#[verifier::external_body]
pub struct ExParseError(strum::ParseError);

/// Builds `strum::ParseError::VariantNotFound`, the only value of that type.
/// Nothing is claimed of it.
#[verifier::external_body]
fn variant_not_found() -> strum::ParseError {
    strum::ParseError::VariantNotFound
}

/// The category that `s` names, if it names one. Matching is exact and
/// case-sensitive.
pub open spec fn parse_target(s: Seq<char>) -> Option<RunTarget> {
    if s == "pit"@ {
        Some(RunTarget::Pit)
    } else if s == "andariel"@ {
        Some(RunTarget::Andariel)
    } else if s == "cows"@ {
        Some(RunTarget::Cows)
    } else if s == "countess"@ {
        Some(RunTarget::Countess)
    } else if s == "arcane_sanctuary"@ {
        Some(RunTarget::ArcaneSanctuary)
    } else if s == "ancient_tunnels"@ {
        Some(RunTarget::AncientTunnels)
    } else if s == "travincal"@ {
        Some(RunTarget::Travincal)
    } else if s == "mephisto"@ {
        Some(RunTarget::Mephisto)
    } else if s == "chaos"@ {
        Some(RunTarget::Chaos)
    } else if s == "pindle"@ {
        Some(RunTarget::Pindle)
    } else if s == "shenk"@ {
        Some(RunTarget::Shenk)
    } else if s == "eldritch"@ {
        Some(RunTarget::Eldritch)
    } else if s == "worldstone"@ {
        Some(RunTarget::Worldstone)
    } else if s == "baal"@ {
        Some(RunTarget::Baal)
    } else {
        None
    }
}

impl RunTarget {
    /// The name of the category: its variant in snake case.
    pub open spec fn name(self) -> Seq<char> {
        match self {
            RunTarget::Pit => "pit"@,
            RunTarget::Andariel => "andariel"@,
            RunTarget::Cows => "cows"@,
            RunTarget::Countess => "countess"@,
            RunTarget::ArcaneSanctuary => "arcane_sanctuary"@,
            RunTarget::AncientTunnels => "ancient_tunnels"@,
            RunTarget::Travincal => "travincal"@,
            RunTarget::Mephisto => "mephisto"@,
            RunTarget::Chaos => "chaos"@,
            RunTarget::Pindle => "pindle"@,
            RunTarget::Shenk => "shenk"@,
            RunTarget::Eldritch => "eldritch"@,
            RunTarget::Worldstone => "worldstone"@,
            RunTarget::Baal => "baal"@,
        }
    }

    /// The string form of the category, the same one that `from_str` accepts.
    pub fn as_ref(&self) -> (s: &'static str)
        ensures
            s@ == self.name(),
    {
        match self {
            RunTarget::Pit => "pit",
            RunTarget::Andariel => "andariel",
            RunTarget::Cows => "cows",
            RunTarget::Countess => "countess",
            RunTarget::ArcaneSanctuary => "arcane_sanctuary",
            RunTarget::AncientTunnels => "ancient_tunnels",
            RunTarget::Travincal => "travincal",
            RunTarget::Mephisto => "mephisto",
            RunTarget::Chaos => "chaos",
            RunTarget::Pindle => "pindle",
            RunTarget::Shenk => "shenk",
            RunTarget::Eldritch => "eldritch",
            RunTarget::Worldstone => "worldstone",
            RunTarget::Baal => "baal",
        }
    }

    /// Resolves a string against the closed set. It succeeds exactly on the
    /// fourteen names, and then returns the category of that name.
    pub fn from_str(s: &str) -> (found: Result<RunTarget, strum::ParseError>)
        ensures
            match found {
                Ok(target) => parse_target(s@) == Some(target) && target.name() == s@,
                Err(_) => parse_target(s@) is None && forall|t: RunTarget| t.name() != s@,
            },
    {
        let chars = chars_of(s);
        if spells(&chars, "pit") {
            Ok(RunTarget::Pit)
        } else if spells(&chars, "andariel") {
            Ok(RunTarget::Andariel)
        } else if spells(&chars, "cows") {
            Ok(RunTarget::Cows)
        } else if spells(&chars, "countess") {
            Ok(RunTarget::Countess)
        } else if spells(&chars, "arcane_sanctuary") {
            Ok(RunTarget::ArcaneSanctuary)
        } else if spells(&chars, "ancient_tunnels") {
            Ok(RunTarget::AncientTunnels)
        } else if spells(&chars, "travincal") {
            Ok(RunTarget::Travincal)
        } else if spells(&chars, "mephisto") {
            Ok(RunTarget::Mephisto)
        } else if spells(&chars, "chaos") {
            Ok(RunTarget::Chaos)
        } else if spells(&chars, "pindle") {
            Ok(RunTarget::Pindle)
        } else if spells(&chars, "shenk") {
            Ok(RunTarget::Shenk)
        } else if spells(&chars, "eldritch") {
            Ok(RunTarget::Eldritch)
        } else if spells(&chars, "worldstone") {
            Ok(RunTarget::Worldstone)
        } else if spells(&chars, "baal") {
            Ok(RunTarget::Baal)
        } else {
            Err(variant_not_found())
        }
    }
}

/// Reveals the length and first letters of each name, enough to tell any
/// two of them apart.
proof fn lemma_names_revealed()
    ensures
        "pit"@.len() == 3,
        "andariel"@.len() == 8 && "andariel"@[0] == 'a',
        "cows"@.len() == 4 && "cows"@[0] == 'c',
        "countess"@.len() == 8 && "countess"@[0] == 'c',
        "arcane_sanctuary"@.len() == 16,
        "ancient_tunnels"@.len() == 15,
        "travincal"@.len() == 9,
        "mephisto"@.len() == 8 && "mephisto"@[0] == 'm',
        "chaos"@.len() == 5 && "chaos"@[0] == 'c',
        "pindle"@.len() == 6,
        "shenk"@.len() == 5 && "shenk"@[0] == 's',
        "eldritch"@.len() == 8 && "eldritch"@[0] == 'e',
        "worldstone"@.len() == 10,
        "baal"@.len() == 4 && "baal"@[0] == 'b',
{
    reveal_strlit("pit");
    reveal_strlit("andariel");
    reveal_strlit("cows");
    reveal_strlit("countess");
    reveal_strlit("arcane_sanctuary");
    reveal_strlit("ancient_tunnels");
    reveal_strlit("travincal");
    reveal_strlit("mephisto");
    reveal_strlit("chaos");
    reveal_strlit("pindle");
    reveal_strlit("shenk");
    reveal_strlit("eldritch");
    reveal_strlit("worldstone");
    reveal_strlit("baal");
}

/// No two categories share a name.
pub proof fn lemma_names_distinct(a: RunTarget, b: RunTarget)
    ensures
        a.name() == b.name() <==> a == b,
{
    lemma_names_revealed();
}

/// Every category is found again under its own name: parsing what `as_ref`
/// gives returns the category it was given for.
pub proof fn lemma_name_round_trip(target: RunTarget)
    ensures
        parse_target(target.name()) == Some(target),
{
    lemma_names_revealed();
}

/// A string that parses is the name of the category it parses to, so the
/// string form of the result is the input, letter for letter.
pub proof fn lemma_parse_round_trip(s: Seq<char>)
    ensures
        parse_target(s) matches Some(target) ==> target.name() == s,
        parse_target(s) is None <==> forall|t: RunTarget| t.name() != s,
{
    if parse_target(s) is None {
        assert forall|t: RunTarget| t.name() != s by {
            lemma_name_round_trip(t);
        }
    } else {
        let target = parse_target(s)->Some_0;
        assert(target.name() == s);
    }
}

} // verus!
