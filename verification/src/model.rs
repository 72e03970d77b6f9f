use vstd::prelude::*;

verus! {

/// A Pokémon as the lookup step hands it over: its name, the raw names of
/// its one or two elemental types, its six base stats in the fixed order
/// HP, Atk, Def, SpA, SpD, Spe, and the raw names of its abilities.
#[derive(Debug, Clone)]
pub struct PokemonInfo {
    pub name: String,
    pub types: Vec<String>,
    pub stats: Vec<u8>,
    pub abilities: Vec<String>,
}

impl PokemonInfo {
    /// A Pokémon carries one or two types, never zero and never more,
    /// and exactly six base stats.
    pub open spec fn wf(self) -> bool {
        1 <= self.types@.len() <= 2 && self.stats@.len() == 6
    }
}

/// An elemental type as the lookup step hands it over: its name and the
/// six damage-relation sets, each a list of raw type names. A type absent
/// from all three `from` lists deals normal damage.
#[derive(Debug, Clone)]
pub struct TypeInfo {
    pub name: String,
    pub no_damage_from: Vec<String>,
    pub half_damage_from: Vec<String>,
    pub double_damage_from: Vec<String>,
    pub no_damage_to: Vec<String>,
    pub half_damage_to: Vec<String>,
    pub double_damage_to: Vec<String>,
}

/// A nature as the lookup step hands it over: its name and the raw names
/// of the stat it decreases and the stat it increases, either of which may
/// be absent.
#[derive(Debug, Clone)]
pub struct NatureInfo {
    pub name: String,
    pub decreased: Option<String>,
    pub increased: Option<String>,
}

/// Every way a lookup or a matchup request can fail, each with its own
/// user-facing message.
#[derive(Clone, Copy, Debug, PartialEq, Eq, Structural)]
pub enum LookupError {
    PokemonNotFound,
    TypeNotFound,
    NatureNotFound,
    MissingPrimaryType,
    Dependency,
}

impl LookupError {
    /// The exact message that each failure prints.
    pub open spec fn spec_message(self) -> Seq<char> {
        match self {
            LookupError::PokemonNotFound => "Couldn't find the Pokemon!"@,
            LookupError::TypeNotFound => "Couldn't find the type!"@,
            LookupError::NatureNotFound => "Couldn't find the Nature!"@,
            LookupError::MissingPrimaryType => "You forgot a primary type!"@,
            LookupError::Dependency => "Something went wrong!"@,
        }
    }

    /// The message of this failure, exactly as it is printed.
    pub fn message(&self) -> (r: String)
        ensures
            r@ == self.spec_message(),
    {
        match self {
            LookupError::PokemonNotFound => String::from_str("Couldn't find the Pokemon!"),
            LookupError::TypeNotFound => String::from_str("Couldn't find the type!"),
            LookupError::NatureNotFound => String::from_str("Couldn't find the Nature!"),
            LookupError::MissingPrimaryType => String::from_str("You forgot a primary type!"),
            LookupError::Dependency => String::from_str("Something went wrong!"),
        }
    }
}

/// The outcome of a Pokémon lookup: a missing record becomes the
/// Pokémon-specific not-found error, a found record passes through.
pub fn resolve_pokemon(found: Option<PokemonInfo>) -> (r: Result<PokemonInfo, LookupError>)
    ensures
        match found {
            Some(p) => r == Ok::<PokemonInfo, LookupError>(p),
            None => r == Err::<PokemonInfo, LookupError>(LookupError::PokemonNotFound),
        },
{
    match found {
        Some(p) => Ok(p),
        None => Err(LookupError::PokemonNotFound),
    }
}

/// The outcome of a type lookup: a missing record becomes the
/// type-specific not-found error, a found record passes through.
pub fn resolve_type(found: Option<TypeInfo>) -> (r: Result<TypeInfo, LookupError>)
    ensures
        match found {
            Some(t) => r == Ok::<TypeInfo, LookupError>(t),
            None => r == Err::<TypeInfo, LookupError>(LookupError::TypeNotFound),
        },
{
    match found {
        Some(t) => Ok(t),
        None => Err(LookupError::TypeNotFound),
    }
}

/// The outcome of a nature lookup: a missing record becomes the
/// nature-specific not-found error, a found record passes through.
pub fn resolve_nature(found: Option<NatureInfo>) -> (r: Result<NatureInfo, LookupError>)
    ensures
        match found {
            Some(n) => r == Ok::<NatureInfo, LookupError>(n),
            None => r == Err::<NatureInfo, LookupError>(LookupError::NatureNotFound),
        },
{
    match found {
        Some(n) => Ok(n),
        None => Err(LookupError::NatureNotFound),
    }
}

} // verus!
