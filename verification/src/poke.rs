//! A species as the catalogue describes it, the row that the collection
//! keeps of it, and the text shown for each.

use crate::decimal::{decimal_chars, push_decimal, push_signed_decimal, signed_decimal_chars};
use crate::sprite::Sprites;
use vstd::prelude::*;

verus! {

/// A named thing of the catalogue and where to read more about it.
#[derive(Debug)]
pub struct Data {
    pub name: String,
    pub url: String,
}

#[derive(Debug)]
pub struct Ability {
    pub ability: Data,
    pub is_hidden: bool,
    pub slot: u8,
}

#[derive(Debug)]
pub struct Cries {
    pub latest: String,
    pub legacy: String,
}

#[derive(Debug)]
pub struct GameIndice {
    pub game_index: u32,
    pub version: Data,
}

#[derive(Debug)]
pub struct Item {
    pub item: Data,
    pub version_details: Vec<VersionDetails>,
}

#[derive(Debug)]
pub struct VersionDetails {
    pub rarity: u32,
    pub version: Data,
}

#[derive(Debug)]
pub struct Move {
    pub move_data: Data,
    pub version_group_details: Vec<VersionGroupDetails>,
}

#[derive(Debug)]
pub struct VersionGroupDetails {
    pub level_learned_at: u8,
    pub move_learn_method: Data,
    pub version_group: Data,
}

#[derive(Debug)]
pub struct PastType {
    pub generation: Data,
    pub types: PokemonType,
}

#[derive(Debug)]
pub struct Stat {
    pub base_stat: u32,
    pub effort: u32,
    pub stat: Data,
}

#[derive(Debug)]
pub struct PokemonType {
    pub slot: u8,
    pub type_info: Data,
}

/// A species as the catalogue describes it.
#[derive(Debug)]
pub struct Pokemon {
    pub abilities: Vec<Ability>,
    pub base_experience: u32,
    pub cries: Cries,
    pub forms: Vec<Data>,
    pub game_indices: Vec<GameIndice>,
    pub height: u32,
    pub held_items: Option<Vec<Item>>,
    pub id: u32,
    pub is_default: bool,
    pub location_area_encounters: String,
    pub moves: Vec<Move>,
    pub name: String,
    pub order: u32,
    pub past_abilities: Option<Vec<Data>>,
    pub past_types: Option<Vec<PastType>>,
    pub species: Data,
    pub sprites: Sprites,
    pub stats: Vec<Stat>,
    pub types: Vec<PokemonType>,
    pub weight: u32,
}

/// The row that the collection keeps of a caught species.
#[derive(Debug)]
pub struct DbPoke {
    pub id: i64,
    pub name: String,
    pub types: Vec<PokemonType>,
    pub base_experience: i64,
    pub stats: Vec<Stat>,
    pub is_shiny: bool,
}

/// Where the catalogue describes the species called `name`.
pub fn catalogue_url(name: &str) -> (url: String)
    ensures
        url@ == "https://pokeapi.co/api/v2/pokemon/"@ + name@,
{
    let mut url = "https://pokeapi.co/api/v2/pokemon/".to_owned();
    url.append(name);
    url
}

/// One line per type: its name.
pub open spec fn type_lines(types: Seq<PokemonType>) -> Seq<char>
    decreases types.len(),
{
    if types.len() == 0 {
        Seq::empty()
    } else {
        type_lines(types.drop_last()) + types.last().type_info.name@ + "\n"@
    }
}

/// One line per stat: its name, a space, its base value.
pub open spec fn stat_lines(stats: Seq<Stat>) -> Seq<char>
    decreases stats.len(),
{
    if stats.len() == 0 {
        Seq::empty()
    } else {
        stat_lines(stats.drop_last()) + stats.last().stat.name@ + " "@ + decimal_chars(
            stats.last().base_stat as nat,
        ) + "\n"@
    }
}

/// One line per ability: its name, marked when the ability is hidden.
pub open spec fn ability_lines(abilities: Seq<Ability>) -> Seq<char>
    decreases abilities.len(),
{
    if abilities.len() == 0 {
        Seq::empty()
    } else if abilities.last().is_hidden {
        ability_lines(abilities.drop_last()) + abilities.last().ability.name@ + " (hidden)\n"@
    } else {
        ability_lines(abilities.drop_last()) + abilities.last().ability.name@ + "\n"@
    }
}

/// One line per move: its name.
pub open spec fn move_lines(moves: Seq<Move>) -> Seq<char>
    decreases moves.len(),
{
    if moves.len() == 0 {
        Seq::empty()
    } else {
        move_lines(moves.drop_last()) + moves.last().move_data.name@ + "\n"@
    }
}

/// How a truth value is written.
pub open spec fn bool_chars(b: bool) -> Seq<char> {
    if b {
        "true"@
    } else {
        "false"@
    }
}

fn push_type_lines(text: &mut String, types: &Vec<PokemonType>)
    ensures
        final(text)@ == old(text)@ + type_lines(types@),
{
    let mut i: usize = 0;
    while i < types.len()
        invariant
            i <= types@.len(),
            text@ == old(text)@ + type_lines(types@.take(i as int)),
        decreases types@.len() - i,
    {
        assert(types@.take(i + 1).drop_last() =~= types@.take(i as int));
        text.append(types[i].type_info.name.as_str());
        text.append("\n");
        i += 1;
        assert(text@ =~= old(text)@ + type_lines(types@.take(i as int)));
    }
    assert(types@.take(i as int) =~= types@);
}

fn push_stat_lines(text: &mut String, stats: &Vec<Stat>)
    ensures
        final(text)@ == old(text)@ + stat_lines(stats@),
{
    let mut i: usize = 0;
    while i < stats.len()
        invariant
            i <= stats@.len(),
            text@ == old(text)@ + stat_lines(stats@.take(i as int)),
        decreases stats@.len() - i,
    {
        assert(stats@.take(i + 1).drop_last() =~= stats@.take(i as int));
        text.append(stats[i].stat.name.as_str());
        text.append(" ");
        push_decimal(text, stats[i].base_stat as u64);
        text.append("\n");
        i += 1;
        assert(text@ =~= old(text)@ + stat_lines(stats@.take(i as int)));
    }
    assert(stats@.take(i as int) =~= stats@);
}

fn push_ability_lines(text: &mut String, abilities: &Vec<Ability>)
    ensures
        final(text)@ == old(text)@ + ability_lines(abilities@),
{
    let mut i: usize = 0;
    while i < abilities.len()
        invariant
            i <= abilities@.len(),
            text@ == old(text)@ + ability_lines(abilities@.take(i as int)),
        decreases abilities@.len() - i,
    {
        assert(abilities@.take(i + 1).drop_last() =~= abilities@.take(i as int));
        text.append(abilities[i].ability.name.as_str());
        if abilities[i].is_hidden {
            text.append(" (hidden)\n");
        } else {
            text.append("\n");
        }
        i += 1;
        assert(text@ =~= old(text)@ + ability_lines(abilities@.take(i as int)));
    }
    assert(abilities@.take(i as int) =~= abilities@);
}

fn push_move_lines(text: &mut String, moves: &Vec<Move>)
    ensures
        final(text)@ == old(text)@ + move_lines(moves@),
{
    let mut i: usize = 0;
    while i < moves.len()
        invariant
            i <= moves@.len(),
            text@ == old(text)@ + move_lines(moves@.take(i as int)),
        decreases moves@.len() - i,
    {
        assert(moves@.take(i + 1).drop_last() =~= moves@.take(i as int));
        text.append(moves[i].move_data.name.as_str());
        text.append("\n");
        i += 1;
        assert(text@ =~= old(text)@ + move_lines(moves@.take(i as int)));
    }
    assert(moves@.take(i as int) =~= moves@);
}

impl Pokemon {
    /// The text shown for a species: its name and identifier, then its
    /// types, stats, abilities and moves, each under a heading.
    pub open spec fn text(&self) -> Seq<char> {
        self.name@ + "\nID : "@ + decimal_chars(self.id as nat) + "\n"@ + "- Type(s) : \n"@
            + type_lines(self.types@) + "- Stats : \n"@ + stat_lines(self.stats@)
            + "- Abilities : \n"@ + ability_lines(self.abilities@) + "- Moves : \n"@ + move_lines(
            self.moves@,
        )
    }

    /// Writes the species out as text.
    pub fn render(&self) -> (out: String)
        ensures
            out@ == self.text(),
    {
        let mut out = String::new();
        out.append(self.name.as_str());
        out.append("\nID : ");
        push_decimal(&mut out, self.id as u64);
        out.append("\n");
        out.append("- Type(s) : \n");
        push_type_lines(&mut out, &self.types);
        out.append("- Stats : \n");
        push_stat_lines(&mut out, &self.stats);
        out.append("- Abilities : \n");
        push_ability_lines(&mut out, &self.abilities);
        out.append("- Moves : \n");
        push_move_lines(&mut out, &self.moves);
        assert(out@ =~= self.text());
        out
    }

    /// The name of the species, which is all that is kept of it.
    pub fn into_name(self) -> (name: String)
        ensures
            name == self.name,
    {
        self.name
    }

    /// The row under which a freshly caught species enters the collection:
    /// its identifier, name, types, base experience and stats, and not
    /// shiny.
    pub open spec fn caught(self) -> DbPoke {
        DbPoke {
            id: self.id as i64,
            name: self.name,
            types: self.types,
            base_experience: self.base_experience as i64,
            stats: self.stats,
            is_shiny: false,
        }
    }

    /// Turns the species into the row that the collection keeps of it.
    pub fn into_db_poke(self) -> (row: DbPoke)
        ensures
            row == self.caught(),
    {
        DbPoke {
            id: self.id as i64,
            name: self.name,
            types: self.types,
            base_experience: self.base_experience as i64,
            stats: self.stats,
            is_shiny: false,
        }
    }
}

impl From<Pokemon> for DbPoke {
    fn from(pokemon: Pokemon) -> (row: DbPoke) {
        pokemon.into_db_poke()
    }
}

impl vstd::std_specs::convert::FromSpecImpl<Pokemon> for DbPoke {
    open spec fn obeys_from_spec() -> bool {
        true
    }

    open spec fn from_spec(pokemon: Pokemon) -> DbPoke {
        pokemon.caught()
    }
}

impl From<Pokemon> for String {
    fn from(pokemon: Pokemon) -> (name: String) {
        pokemon.into_name()
    }
}

impl vstd::std_specs::convert::FromSpecImpl<Pokemon> for String {
    open spec fn obeys_from_spec() -> bool {
        true
    }

    open spec fn from_spec(pokemon: Pokemon) -> String {
        pokemon.name
    }
}

impl DbPoke {
    /// The text shown for a row of the collection: name, identifier and
    /// base experience, then its types and stats, and whether it is shiny.
    pub open spec fn text(&self) -> Seq<char> {
        self.name@ + "\nID : "@ + signed_decimal_chars(self.id as int) + ",\nbase exerperience: "@
            + signed_decimal_chars(self.base_experience as int) + "\n"@ + "- Type(s) : \n"@
            + type_lines(self.types@) + "- Stats : \n"@ + stat_lines(self.stats@) + "- Shiny : "@
            + bool_chars(self.is_shiny) + "\n"@
    }

    /// Writes the row out as text.
    pub fn render(&self) -> (out: String)
        ensures
            out@ == self.text(),
    {
        let mut out = String::new();
        out.append(self.name.as_str());
        out.append("\nID : ");
        push_signed_decimal(&mut out, self.id);
        out.append(",\nbase exerperience: ");
        push_signed_decimal(&mut out, self.base_experience);
        out.append("\n");
        out.append("- Type(s) : \n");
        push_type_lines(&mut out, &self.types);
        out.append("- Stats : \n");
        push_stat_lines(&mut out, &self.stats);
        out.append("- Shiny : ");
        if self.is_shiny {
            out.append("true");
        } else {
            out.append("false");
        }
        out.append("\n");
        assert(out@ =~= self.text());
        out
    }
}

} // verus!
