use vstd::prelude::*;

use crate::effectiveness::{
    effectiveness_of, get_effectiveness, multiplier_chars, multiplier_string, product_quarters,
};
use crate::model::{LookupError, NatureInfo, PokemonInfo, TypeInfo};
use crate::text::{
    dec_digits, decimal_string, join_sep, join_with, make_ascii_titlecase, padded3, stat_field,
    titlecase_all, upper_first, upper_first_all,
};

verus! {

/// The parenthesised type list of a Pokémon: one type stands alone, two
/// are separated by a comma and a space, each with its first letter
/// uppercased.
pub open spec fn type_paren_text(types: Seq<Seq<char>>) -> Seq<char>
    recommends
        1 <= types.len() <= 2,
{
    if types.len() == 1 {
        "("@ + upper_first(types[0]) + ")"@
    } else {
        "("@ + upper_first(types[0]) + ", "@ + upper_first(types[1]) + ")"@
    }
}

/// The basic line of a Pokémon: its titlecased name, a tab, and its
/// parenthesised type list.
pub open spec fn pokemon_basic_line(p: PokemonInfo) -> Seq<char> {
    upper_first(p.name@) + "\t"@ + type_paren_text(p.types.deep_view())
}

/// The ability line of a Pokémon: the fixed label followed by the
/// titlecased ability names joined with a comma and a space.
pub open spec fn pokemon_ability_line(p: PokemonInfo) -> Seq<char> {
    "Abilities: "@ + join_sep(upper_first_all(p.abilities.deep_view()), ", "@)
}

/// The four stat lines of a Pokémon, in the fixed order HP, then Atk and
/// Def paired, then SpA and SpD paired, then Spe, each value right-aligned
/// to width three.
pub open spec fn pokemon_stat_lines(stats: Seq<u8>) -> Seq<Seq<char>>
    recommends
        stats.len() == 6,
{
    seq![
        " HP: "@ + padded3(dec_digits(stats[0] as nat)),
        "Atk: "@ + padded3(dec_digits(stats[1] as nat)) + "\tDef: "@ + padded3(
            dec_digits(stats[2] as nat),
        ),
        "SpA: "@ + padded3(dec_digits(stats[3] as nat)) + "\tSpD: "@ + padded3(
            dec_digits(stats[4] as nat),
        ),
        "Spe: "@ + padded3(dec_digits(stats[5] as nat)),
    ]
}

/// Everything a Pokémon request prints, one element per printed line: the
/// basic line unless it was switched off, then the ability line when
/// abilities were asked for, then the stat lines when stats were asked
/// for; asking for all forces both the ability and the stat part.
pub open spec fn pokemon_output(
    p: PokemonInfo,
    show_stats: bool,
    show_ability: bool,
    show_basic: bool,
    show_all: bool,
) -> Seq<Seq<char>> {
    let stats_on = show_stats || show_all;
    let ability_on = show_ability || show_all;
    (if show_basic {
        seq![pokemon_basic_line(p)]
    } else {
        Seq::empty()
    }) + (if ability_on {
        seq![pokemon_ability_line(p)]
    } else {
        Seq::empty()
    }) + (if stats_on {
        pokemon_stat_lines(p.stats.deep_view())
    } else {
        Seq::empty()
    })
}

/// Asking for all details prints exactly what asking for stats and
/// abilities together prints, whatever the two individual switches say.
pub proof fn lemma_all_forces_details(
    p: PokemonInfo,
    show_stats: bool,
    show_ability: bool,
    show_basic: bool,
)
    ensures
        pokemon_output(p, show_stats, show_ability, show_basic, true) == pokemon_output(
            p,
            true,
            true,
            show_basic,
            false,
        ),
{
}

/// The titlecased names of a Pokémon's types, in order.
pub fn get_pokemon_type_names(p: &PokemonInfo) -> (r: Vec<String>)
    ensures
        r.deep_view() == upper_first_all(p.types.deep_view()),
{
    titlecase_all(&p.types)
}

/// The titlecased names of a Pokémon's abilities, in order.
pub fn get_ability(p: &PokemonInfo) -> (r: Vec<String>)
    ensures
        r.deep_view() == upper_first_all(p.abilities.deep_view()),
{
    titlecase_all(&p.abilities)
}

/// The decimal texts of a Pokémon's base stats, in order.
pub fn get_stats(p: &PokemonInfo) -> (r: Vec<String>)
    ensures
        r.deep_view() == p.stats.deep_view().map_values(|v: u8| dec_digits(v as nat)),
{
    let mut out: Vec<String> = Vec::new();
    let mut i: usize = 0;
    while i < p.stats.len()
        invariant
            i <= p.stats@.len(),
            out@.len() == i,
            forall|j: int|
                0 <= j < i ==> out.deep_view()[j] == dec_digits(p.stats@[j] as nat),
        decreases p.stats@.len() - i,
    {
        let text = decimal_string(p.stats[i]);
        let ghost prev = out@;
        let ghost prev_dv = out.deep_view();
        out.push(text);
        i = i + 1;
        proof {
            assert forall|j: int| 0 <= j < i implies out.deep_view()[j] == dec_digits(
                p.stats@[j] as nat,
            ) by {
                if j < i - 1 {
                    assert(out@[j] == prev[j]);
                    assert(prev_dv[j] == prev[j].deep_view());
                    assert(prev_dv[j] == dec_digits(p.stats@[j] as nat));
                } else {
                    assert(out@[j] == text);
                }
            }
        }
    }
    proof {
        assert(out.deep_view() =~= p.stats.deep_view().map_values(|v: u8| dec_digits(v as nat)));
    }
    out
}

/// The basic line of a Pokémon, exactly as it is printed.
fn basic_line_string(p: &PokemonInfo) -> (r: String)
    requires
        p.wf(),
    ensures
        r@ == pokemon_basic_line(*p),
{
    let mut line = make_ascii_titlecase(p.name.as_str());
    line.append("\t");
    line.append("(");
    let names = get_pokemon_type_names(p);
    proof {
        assert(names.deep_view().len() == names@.len());
        assert(upper_first_all(p.types.deep_view()).len() == p.types@.len());
    }
    line.append(names[0].as_str());
    if names.len() > 1 {
        line.append(", ");
        line.append(names[1].as_str());
    }
    line.append(")");
    proof {
        assert(names.deep_view()[0] == names@[0]@);
        if p.types@.len() > 1 {
            assert(names.deep_view()[1] == names@[1]@);
        }
        assert(line@ =~= pokemon_basic_line(*p));
    }
    line
}

/// The ability line of a Pokémon, exactly as it is printed.
fn ability_line_string(p: &PokemonInfo) -> (r: String)
    ensures
        r@ == pokemon_ability_line(*p),
{
    let titled = get_ability(p);
    let joined = join_with(&titled, ", ");
    let mut line = String::from_str("Abilities: ");
    line.append(joined.as_str());
    proof {
        assert(line@ =~= pokemon_ability_line(*p));
    }
    line
}

/// One of the paired stat lines: a label, a padded value, a tab, a second
/// label and a second padded value.
fn stat_pair_line(label_a: &str, a: u8, label_b: &str, b: u8) -> (r: String)
    ensures
        r@ == label_a@ + padded3(dec_digits(a as nat)) + label_b@ + padded3(dec_digits(b as nat)),
{
    let mut line = String::from_str(label_a);
    line.append(stat_field(a).as_str());
    line.append(label_b);
    line.append(stat_field(b).as_str());
    proof {
        assert(line@ =~= label_a@ + padded3(dec_digits(a as nat)) + label_b@ + padded3(
            dec_digits(b as nat),
        ));
    }
    line
}

/// Everything a Pokémon request prints, one string per printed line.
pub fn render_pokemon(
    p: &PokemonInfo,
    show_stats: bool,
    show_ability: bool,
    show_basic: bool,
    show_all: bool,
) -> (r: Vec<String>)
    requires
        p.wf(),
    ensures
        r.deep_view() == pokemon_output(*p, show_stats, show_ability, show_basic, show_all),
{
    let mut out: Vec<String> = Vec::new();
    if show_basic {
        out.push(basic_line_string(p));
    }
    if show_ability || show_all {
        out.push(ability_line_string(p));
    }
    if show_stats || show_all {
        let mut hp = String::from_str(" HP: ");
        hp.append(stat_field(p.stats[0]).as_str());
        out.push(hp);
        out.push(stat_pair_line("Atk: ", p.stats[1], "\tDef: ", p.stats[2]));
        out.push(stat_pair_line("SpA: ", p.stats[3], "\tSpD: ", p.stats[4]));
        let mut spe = String::from_str("Spe: ");
        spe.append(stat_field(p.stats[5]).as_str());
        out.push(spe);
    }
    proof {
        assert(out.deep_view() =~= pokemon_output(
            *p,
            show_stats,
            show_ability,
            show_basic,
            show_all,
        ));
    }
    out
}

/// The fixed header of each damage-relation category, the three defense
/// headers first, the three offense headers after them; every header ends
/// with its own line break.
pub open spec fn header_chars(i: int) -> Seq<char> {
    if i == 0 {
        "Immune To:\n"@
    } else if i == 1 {
        "Resistant To:\n"@
    } else if i == 2 {
        "Weakness To:\n"@
    } else if i == 3 {
        "Ineffective Against:\n"@
    } else if i == 4 {
        "Not Very Effective Against:\n"@
    } else {
        "Very Effective Against:\n"@
    }
}

/// One printed category: its header alone when the category is empty,
/// else the header followed by the titlecased member names joined with
/// single spaces and a closing line break.
pub open spec fn category_block(header: Seq<char>, members: Seq<Seq<char>>) -> Seq<char> {
    if members.len() == 0 {
        header
    } else {
        header + join_sep(upper_first_all(members), " "@) + "\n"@
    }
}

/// The member lists of the categories a type request shows: the three
/// defense lists when defense was asked for or offense was not, then the
/// three offense lists when offense was asked for or defense was not;
/// with neither switch both blocks appear, defense first.
pub open spec fn included_categories(
    t: TypeInfo,
    show_defense: bool,
    show_offense: bool,
) -> Seq<Seq<Seq<char>>> {
    (if show_defense || !show_offense {
        seq![
            t.no_damage_from.deep_view(),
            t.half_damage_from.deep_view(),
            t.double_damage_from.deep_view(),
        ]
    } else {
        Seq::empty()
    }) + (if show_offense || !show_defense {
        seq![
            t.no_damage_to.deep_view(),
            t.half_damage_to.deep_view(),
            t.double_damage_to.deep_view(),
        ]
    } else {
        Seq::empty()
    })
}

/// Everything a type request without a matchup prints, one element per
/// printed block: the titlecased type name, then one block per included
/// category. The header of the block at position `i` is the header at
/// index `i`, except that a request for offense alone shifts the index by
/// three, onto the offense-labeled headers.
pub open spec fn type_output(t: TypeInfo, show_defense: bool, show_offense: bool) -> Seq<
    Seq<char>,
> {
    let cats = included_categories(t, show_defense, show_offense);
    let shift: int = if show_offense && !show_defense {
        3
    } else {
        0
    };
    seq![upper_first(t.name@)] + Seq::new(
        cats.len(),
        |i: int| category_block(header_chars(i + shift), cats[i]),
    )
}

/// A request for offense alone labels its three categories with the
/// offense headers, the ones at indices three to five, not with the
/// headers a request for both sides would put at positions zero to two.
pub proof fn lemma_offense_only_headers(t: TypeInfo, i: int)
    requires
        0 <= i < 3,
    ensures
        type_output(t, false, true)[i + 1] == category_block(
            header_chars(i + 3),
            included_categories(t, false, true)[i],
        ),
{
}

/// One printed category block, exactly as it is printed.
fn category_string(header: &str, members: &Vec<String>) -> (r: String)
    ensures
        r@ == category_block(header@, members.deep_view()),
{
    let mut out = String::from_str(header);
    if members.len() > 0 {
        let titled = titlecase_all(members);
        let joined = join_with(&titled, " ");
        out.append(joined.as_str());
        out.append("\n");
    }
    proof {
        assert(out@ =~= category_block(header@, members.deep_view()));
    }
    out
}

/// Everything a type request without a matchup prints, one string per
/// printed block.
pub fn render_type(t: &TypeInfo, show_defense: bool, show_offense: bool) -> (r: Vec<String>)
    ensures
        r.deep_view() == type_output(*t, show_defense, show_offense),
{
    let mut out: Vec<String> = Vec::new();
    out.push(make_ascii_titlecase(t.name.as_str()));
    if show_defense || !show_offense {
        out.push(category_string("Immune To:\n", &t.no_damage_from));
        out.push(category_string("Resistant To:\n", &t.half_damage_from));
        out.push(category_string("Weakness To:\n", &t.double_damage_from));
    }
    if show_offense || !show_defense {
        out.push(category_string("Ineffective Against:\n", &t.no_damage_to));
        out.push(category_string("Not Very Effective Against:\n", &t.half_damage_to));
        out.push(category_string("Very Effective Against:\n", &t.double_damage_to));
    }
    proof {
        assert(out.deep_view() =~= type_output(*t, show_defense, show_offense));
    }
    out
}

/// What a secondary type's lookup came to: the user named no secondary
/// type, or named one that was found, or named one that no record matches.
pub enum SecondaryLookup {
    Absent,
    Found(TypeInfo),
    NotFound,
}

/// The printed matchup line for a move name and a combined multiplier
/// given in quarter units.
pub open spec fn matchup_line(move_name: Seq<char>, q: nat) -> Seq<char> {
    "A "@ + move_name + "-type move will do "@ + multiplier_chars(q) + "x damage."@
}

/// The combined multiplier of a matchup, in quarter units: the move's
/// effectiveness against the primary type, times its effectiveness
/// against the secondary type when one was found.
pub open spec fn matchup_quarters(
    attacking: TypeInfo,
    primary: TypeInfo,
    secondary: SecondaryLookup,
) -> nat {
    product_quarters(
        effectiveness_of(primary, attacking.name@),
        match secondary {
            SecondaryLookup::Found(s) => Some(effectiveness_of(s, attacking.name@)),
            _ => None,
        },
    )
}

/// A matchup with no secondary type prints exactly the effectiveness of
/// the move against the primary type alone.
pub proof fn lemma_matchup_without_secondary(attacking: TypeInfo, primary: TypeInfo)
    ensures
        matchup_quarters(attacking, primary, SecondaryLookup::Absent) == effectiveness_of(
            primary,
            attacking.name@,
        ).spec_quarters(),
{
}

/// A matchup with a secondary type prints exactly the product of the two
/// single-type effectivenesses. In quarter units: four times the combined
/// value equals the product of the two factors, so the quotient in the
/// definition loses nothing.
pub proof fn lemma_matchup_with_secondary(
    attacking: TypeInfo,
    primary: TypeInfo,
    secondary: TypeInfo,
)
    ensures
        4 * matchup_quarters(attacking, primary, SecondaryLookup::Found(secondary))
            == effectiveness_of(primary, attacking.name@).spec_quarters() * effectiveness_of(
            secondary,
            attacking.name@,
        ).spec_quarters(),
{
    crate::effectiveness::lemma_matchup_product(
        effectiveness_of(primary, attacking.name@),
        effectiveness_of(secondary, attacking.name@),
    );
}

/// The matchup line of a move type against a defending type pair. A
/// missing primary type is its own error, distinct from a plain failed
/// lookup; a secondary type that was named but not found keeps the
/// ordinary not-found error; otherwise the line carries the combined
/// multiplier, the move written under the name the request used.
pub fn render_type_matchup(
    move_name: &str,
    attacking: &TypeInfo,
    primary: Option<TypeInfo>,
    secondary: SecondaryLookup,
) -> (r: Result<String, LookupError>)
    ensures
        primary is None ==> r == Err::<String, LookupError>(LookupError::MissingPrimaryType),
        primary is Some && secondary is NotFound ==> r == Err::<String, LookupError>(
            LookupError::TypeNotFound,
        ),
        primary is Some && !(secondary is NotFound) ==> (r matches Ok(line) && line@
            == matchup_line(move_name@, matchup_quarters(*attacking, primary->0, secondary))),
{
    match primary {
        None => Err(LookupError::MissingPrimaryType),
        Some(prim) => {
            match secondary {
                SecondaryLookup::NotFound => Err(LookupError::TypeNotFound),
                SecondaryLookup::Absent => {
                    let eff = get_effectiveness(&prim, attacking);
                    let mult = multiplier_string(eff, None);
                    Ok(matchup_line_string(move_name, &mult))
                },
                SecondaryLookup::Found(sec) => {
                    let eff = get_effectiveness(&prim, attacking);
                    let sec_eff = get_effectiveness(&sec, attacking);
                    let mult = multiplier_string(eff, Some(sec_eff));
                    Ok(matchup_line_string(move_name, &mult))
                },
            }
        },
    }
}

/// The printed matchup line for a move name and an already formatted
/// multiplier.
fn matchup_line_string(move_name: &str, mult: &String) -> (r: String)
    ensures
        r@ == "A "@ + move_name@ + "-type move will do "@ + mult@ + "x damage."@,
{
    let mut line = String::from_str("A ");
    line.append(move_name);
    line.append("-type move will do ");
    line.append(mult.as_str());
    line.append("x damage.");
    proof {
        assert(line@ =~= "A "@ + move_name@ + "-type move will do "@ + mult@ + "x damage."@);
    }
    line
}

/// What each optional stat reference of a nature prints: the titlecased
/// stat name, or the word None where the nature leaves the stat alone.
pub open spec fn nature_stat_text(s: Option<String>) -> Seq<char> {
    match s {
        None => "None"@,
        Some(name) => upper_first(name@),
    }
}

/// The printed line of a nature: the decreased stat behind a minus sign,
/// then the increased stat behind a plus sign.
pub open spec fn nature_line(n: NatureInfo) -> Seq<char> {
    "-"@ + nature_stat_text(n.decreased) + ", +"@ + nature_stat_text(n.increased)
}

/// The two stat texts of a nature: what it decreases and what it
/// increases, each titlecased, with the word None for an absent
/// reference.
pub fn get_nature_details(n: &NatureInfo) -> (r: Vec<String>)
    ensures
        r.deep_view() =~= seq![nature_stat_text(n.decreased), nature_stat_text(n.increased)],
{
    let mut out: Vec<String> = Vec::new();
    out.push(nature_stat_string(&n.decreased));
    out.push(nature_stat_string(&n.increased));
    out
}

/// One optional stat reference of a nature, as its printed text.
fn nature_stat_string(s: &Option<String>) -> (r: String)
    ensures
        r@ == nature_stat_text(*s),
{
    match s {
        None => String::from_str("None"),
        Some(name) => make_ascii_titlecase(name.as_str()),
    }
}

/// The printed line of a nature, exactly as it is printed.
pub fn render_nature(n: &NatureInfo) -> (r: String)
    ensures
        r@ == nature_line(*n),
{
    let mut line = String::from_str("-");
    line.append(nature_stat_string(&n.decreased).as_str());
    line.append(", +");
    line.append(nature_stat_string(&n.increased).as_str());
    proof {
        assert(line@ =~= nature_line(*n));
    }
    line
}

} // verus!
