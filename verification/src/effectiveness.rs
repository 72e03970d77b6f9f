use vstd::prelude::*;

use crate::model::TypeInfo;

verus! {

/// How hard a move of some type hits a defending type: immune means no
/// damage at all, resistant half damage, normal plain damage and weak
/// double damage.
#[derive(Clone, Copy, Debug, PartialEq, Eq, Structural)]
pub enum Effectiveness {
    Immune,
    Resistant,
    Normal,
    Weak,
}

/// Whether the name stands somewhere in the list.
pub open spec fn name_in(names: Seq<Seq<char>>, x: Seq<char>) -> bool {
    exists|i: int| 0 <= i < names.len() && names[i] == x
}

/// The effectiveness of an attacking type against a defending type: the
/// defender's damage-received lists are scanned in the fixed order
/// none, half, double, and the first list that holds the attacker's name
/// decides; a name in none of them takes normal damage.
pub open spec fn effectiveness_of(defending: TypeInfo, attacker: Seq<char>) -> Effectiveness {
    if name_in(defending.no_damage_from.deep_view(), attacker) {
        Effectiveness::Immune
    } else if name_in(defending.half_damage_from.deep_view(), attacker) {
        Effectiveness::Resistant
    } else if name_in(defending.double_damage_from.deep_view(), attacker) {
        Effectiveness::Weak
    } else {
        Effectiveness::Normal
    }
}

impl Effectiveness {
    /// The damage multiplier in quarter units: the multipliers 0, 0.5, 1
    /// and 2 are carried as 0, 2, 4 and 8 quarters.
    pub open spec fn spec_quarters(self) -> nat {
        match self {
            Effectiveness::Immune => 0,
            Effectiveness::Resistant => 2,
            Effectiveness::Normal => 4,
            Effectiveness::Weak => 8,
        }
    }

    /// The damage multiplier of this effectiveness, in quarter units.
    pub fn quarters(&self) -> (q: u8)
        ensures
            q as nat == self.spec_quarters(),
    {
        match self {
            Effectiveness::Immune => 0,
            Effectiveness::Resistant => 2,
            Effectiveness::Normal => 4,
            Effectiveness::Weak => 8,
        }
    }
}

/// The combined multiplier of a matchup, in quarter units: the primary
/// effectiveness alone when no secondary type takes part, else the product
/// of the two effectivenesses.
pub open spec fn product_quarters(primary: Effectiveness, secondary: Option<Effectiveness>) -> nat {
    match secondary {
        None => primary.spec_quarters(),
        Some(s) => primary.spec_quarters() * s.spec_quarters() / 4,
    }
}

/// The text of a multiplier given in quarter units, written as Rust's
/// default floating-point formatting would write the value: whole numbers
/// without a decimal point, the others with their exact fraction digits.
pub open spec fn multiplier_chars(q: nat) -> Seq<char> {
    if q == 0 {
        "0"@
    } else if q == 1 {
        "0.25"@
    } else if q == 2 {
        "0.5"@
    } else if q == 4 {
        "1"@
    } else if q == 8 {
        "2"@
    } else if q == 16 {
        "4"@
    } else {
        Seq::empty()
    }
}

/// Whether the name stands somewhere in the list.
fn contains_name(names: &Vec<String>, x: &String) -> (r: bool)
    ensures
        r == name_in(names.deep_view(), x@),
{
    let mut i: usize = 0;
    while i < names.len()
        invariant
            i <= names.len(),
            forall|j: int| 0 <= j < i ==> names.deep_view()[j] != x@,
        decreases names.len() - i,
    {
        if *x == names[i] {
            proof {
                assert(names.deep_view()[i as int] == x@);
            }
            return true;
        }
        i = i + 1;
    }
    false
}

/// The effectiveness of attacking a defending type with an offensive type:
/// the defender's damage-received lists decide, scanned in the fixed order
/// none, half, double, and the attacker's name is one of the three special
/// multipliers exactly when it stands in the corresponding list, first
/// match winning; otherwise the damage is normal.
pub fn get_effectiveness(defending: &TypeInfo, attacking: &TypeInfo) -> (r: Effectiveness)
    ensures
        r == effectiveness_of(*defending, attacking.name@),
        (r == Effectiveness::Immune) == name_in(
            defending.no_damage_from.deep_view(),
            attacking.name@,
        ),
        (r == Effectiveness::Resistant) == (!name_in(
            defending.no_damage_from.deep_view(),
            attacking.name@,
        ) && name_in(defending.half_damage_from.deep_view(), attacking.name@)),
        (r == Effectiveness::Weak) == (!name_in(
            defending.no_damage_from.deep_view(),
            attacking.name@,
        ) && !name_in(defending.half_damage_from.deep_view(), attacking.name@) && name_in(
            defending.double_damage_from.deep_view(),
            attacking.name@,
        )),
{
    if contains_name(&defending.no_damage_from, &attacking.name) {
        Effectiveness::Immune
    } else if contains_name(&defending.half_damage_from, &attacking.name) {
        Effectiveness::Resistant
    } else if contains_name(&defending.double_damage_from, &attacking.name) {
        Effectiveness::Weak
    } else {
        Effectiveness::Normal
    }
}

/// The text of the combined multiplier of a matchup, exactly as it is
/// printed.
pub fn multiplier_string(primary: Effectiveness, secondary: Option<Effectiveness>) -> (r: String)
    ensures
        r@ == multiplier_chars(product_quarters(primary, secondary)),
{
    let pq = primary.quarters();
    let q: u8 = match secondary {
        None => pq,
        Some(s) => (pq * s.quarters()) / 4,
    };
    proof {
        assert(q as nat == product_quarters(primary, secondary));
    }
    if q == 0 {
        String::from_str("0")
    } else if q == 1 {
        String::from_str("0.25")
    } else if q == 2 {
        String::from_str("0.5")
    } else if q == 4 {
        String::from_str("1")
    } else if q == 8 {
        String::from_str("2")
    } else {
        proof {
            assert(q == 16);
        }
        String::from_str("4")
    }
}

/// Every effectiveness is one of the four multipliers, and it is one of
/// the three special ones exactly when the attacker's name stands in the
/// corresponding damage-received list, the lists scanned in the fixed
/// order none, half, double; a name in none of them takes normal damage.
pub proof fn lemma_effectiveness_membership(defending: TypeInfo, attacker: Seq<char>)
    ensures
        (effectiveness_of(defending, attacker) == Effectiveness::Immune) == name_in(
            defending.no_damage_from.deep_view(),
            attacker,
        ),
        (effectiveness_of(defending, attacker) == Effectiveness::Resistant) == (!name_in(
            defending.no_damage_from.deep_view(),
            attacker,
        ) && name_in(defending.half_damage_from.deep_view(), attacker)),
        (effectiveness_of(defending, attacker) == Effectiveness::Weak) == (!name_in(
            defending.no_damage_from.deep_view(),
            attacker,
        ) && !name_in(defending.half_damage_from.deep_view(), attacker) && name_in(
            defending.double_damage_from.deep_view(),
            attacker,
        )),
        (effectiveness_of(defending, attacker) == Effectiveness::Normal) == (!name_in(
            defending.no_damage_from.deep_view(),
            attacker,
        ) && !name_in(defending.half_damage_from.deep_view(), attacker) && !name_in(
            defending.double_damage_from.deep_view(),
            attacker,
        )),
{
}

/// A matchup with no secondary type: the combined multiplier is exactly
/// the effectiveness of the move against the primary type alone.
pub proof fn lemma_matchup_no_secondary(primary: Effectiveness)
    ensures
        product_quarters(primary, None) == primary.spec_quarters(),
{
}

/// A matchup with a secondary type: the combined multiplier is exactly the
/// product of the two single-type multipliers. In quarter units: four
/// times the combined value equals the product of the two factors, so the
/// quotient in the definition loses nothing.
pub proof fn lemma_matchup_product(primary: Effectiveness, secondary: Effectiveness)
    ensures
        4 * product_quarters(primary, Some(secondary)) == primary.spec_quarters()
            * secondary.spec_quarters(),
{
}

} // verus!
