//! The pictures that the catalogue holds of a species: addresses of
//! images, grouped by the games they were drawn for. Plain data; an address
//! that the catalogue does not have is `None`.

use vstd::prelude::*;

verus! {

#[derive(Debug)]
pub struct Sprites {
    pub back_default: Option<String>,
    pub back_female: Option<String>,
    pub back_shiny: Option<String>,
    pub back_shiny_female: Option<String>,
    pub front_default: Option<String>,
    pub front_female: Option<String>,
    pub front_shiny: Option<String>,
    pub front_shiny_female: Option<String>,
    pub other: Option<Other>,
    pub versions: Option<Versions>,
}

#[derive(Debug)]
pub struct Other {
    pub dream_world: Option<DreamWorld>,
    pub home: Option<Home>,
    pub official_artwork: Option<OfficialArtwork>,
    pub showdown: Option<Showdown>,
}

#[derive(Debug)]
pub struct DreamWorld {
    pub front_default: Option<String>,
    pub front_female: Option<String>,
}

#[derive(Debug)]
pub struct Home {
    pub front_default: Option<String>,
    pub front_female: Option<String>,
    pub front_shiny: Option<String>,
    pub front_shiny_female: Option<String>,
}

#[derive(Debug)]
pub struct OfficialArtwork {
    pub front_default: Option<String>,
    pub front_shiny: Option<String>,
}

#[derive(Debug)]
pub struct Showdown {
    pub back_default: Option<String>,
    pub back_female: Option<String>,
    pub back_shiny: Option<String>,
    pub back_shiny_female: Option<String>,
    pub front_default: Option<String>,
    pub front_female: Option<String>,
    pub front_shiny: Option<String>,
    pub front_shiny_female: Option<String>,
}

#[derive(Debug)]
pub struct Versions {
    pub generation_i: Option<GenerationI>,
    pub generation_ii: Option<GenerationII>,
    pub generation_iii: Option<GenerationIII>,
    pub generation_iv: Option<GenerationIV>,
    pub generation_v: Option<GenerationV>,
    pub generation_vi: Option<GenerationVI>,
    pub generation_vii: Option<GenerationVII>,
    pub generation_viii: Option<GenerationVIII>,
}

#[derive(Debug)]
pub struct GenerationI {
    pub red_blue: Option<RedBlue>,
    pub yellow: Option<Yellow>,
}

#[derive(Debug)]
pub struct RedBlue {
    pub back_default: Option<String>,
    pub back_gray: Option<String>,
    pub back_transparent: Option<String>,
    pub front_default: Option<String>,
    pub front_gray: Option<String>,
    pub front_transparent: Option<String>,
}

#[derive(Debug)]
pub struct Yellow {
    pub back_default: Option<String>,
    pub back_gray: Option<String>,
    pub back_transparent: Option<String>,
    pub front_default: Option<String>,
    pub front_gray: Option<String>,
    pub front_transparent: Option<String>,
}

#[derive(Debug)]
pub struct GenerationII {
    pub crystal: Option<Crystal>,
    pub gold: Option<Gold>,
    pub silver: Option<Silver>,
}

#[derive(Debug)]
pub struct Crystal {
    pub back_default: Option<String>,
    pub back_shiny: Option<String>,
    pub back_shiny_transparent: Option<String>,
    pub back_transparent: Option<String>,
    pub front_default: Option<String>,
    pub front_shiny: Option<String>,
    pub front_shiny_transparent: Option<String>,
    pub front_transparent: Option<String>,
}

#[derive(Debug)]
pub struct Gold {
    pub back_default: Option<String>,
    pub back_shiny: Option<String>,
    pub front_default: Option<String>,
    pub front_shiny: Option<String>,
    pub front_transparent: Option<String>,
}

#[derive(Debug)]
pub struct Silver {
    pub back_default: Option<String>,
    pub back_shiny: Option<String>,
    pub front_default: Option<String>,
    pub front_shiny: Option<String>,
    pub front_transparent: Option<String>,
}

#[derive(Debug)]
pub struct GenerationIII {
    pub emerald: Option<Emerald>,
    pub firered_leafgreen: Option<FireRedLeafGreen>,
    pub ruby_sapphire: Option<RubySapphire>,
}

#[derive(Debug)]
pub struct Emerald {
    pub front_default: Option<String>,
    pub front_shiny: Option<String>,
}

#[derive(Debug)]
pub struct FireRedLeafGreen {
    pub back_default: Option<String>,
    pub back_shiny: Option<String>,
    pub front_default: Option<String>,
    pub front_shiny: Option<String>,
}

#[derive(Debug)]
pub struct RubySapphire {
    pub back_default: Option<String>,
    pub back_shiny: Option<String>,
    pub front_default: Option<String>,
    pub front_shiny: Option<String>,
}

#[derive(Debug)]
pub struct GenerationIV {
    pub diamond_pearl: Option<DiamondPearl>,
    pub heartgold_soulsilver: Option<HeartGoldSoulSilver>,
    pub platinum: Option<Platinum>,
}

#[derive(Debug)]
pub struct DiamondPearl {
    pub back_default: Option<String>,
    pub back_female: Option<String>,
    pub back_shiny: Option<String>,
    pub back_shiny_female: Option<String>,
    pub front_default: Option<String>,
    pub front_female: Option<String>,
    pub front_shiny: Option<String>,
    pub front_shiny_female: Option<String>,
}

#[derive(Debug)]
pub struct HeartGoldSoulSilver {
    pub back_default: Option<String>,
    pub back_female: Option<String>,
    pub back_shiny: Option<String>,
    pub back_shiny_female: Option<String>,
    pub front_default: Option<String>,
    pub front_female: Option<String>,
    pub front_shiny: Option<String>,
    pub front_shiny_female: Option<String>,
}

#[derive(Debug)]
pub struct Platinum {
    pub back_default: Option<String>,
    pub back_female: Option<String>,
    pub back_shiny: Option<String>,
    pub back_shiny_female: Option<String>,
    pub front_default: Option<String>,
    pub front_female: Option<String>,
    pub front_shiny: Option<String>,
    pub front_shiny_female: Option<String>,
}

#[derive(Debug)]
pub struct GenerationV {
    pub black_white: Option<BlackWhite>,
}

#[derive(Debug)]
pub struct BlackWhite {
    pub animated: Option<Animated>,
    pub back_default: Option<String>,
    pub back_female: Option<String>,
    pub back_shiny: Option<String>,
    pub back_shiny_female: Option<String>,
    pub front_default: Option<String>,
    pub front_female: Option<String>,
    pub front_shiny: Option<String>,
    pub front_shiny_female: Option<String>,
}

#[derive(Debug)]
pub struct Animated {
    pub back_default: Option<String>,
    pub back_female: Option<String>,
    pub back_shiny: Option<String>,
    pub back_shiny_female: Option<String>,
    pub front_default: Option<String>,
    pub front_female: Option<String>,
    pub front_shiny: Option<String>,
    pub front_shiny_female: Option<String>,
}

#[derive(Debug)]
pub struct GenerationVI {
    pub omegaruby_alphasapphire: Option<OmegaRubyAlphaSapphire>,
    pub x_y: Option<XY>,
}

#[derive(Debug)]
pub struct OmegaRubyAlphaSapphire {
    pub front_default: Option<String>,
    pub front_female: Option<String>,
    pub front_shiny: Option<String>,
    pub front_shiny_female: Option<String>,
}

#[derive(Debug)]
pub struct XY {
    pub front_default: Option<String>,
    pub front_female: Option<String>,
    pub front_shiny: Option<String>,
    pub front_shiny_female: Option<String>,
}

#[derive(Debug)]
pub struct GenerationVII {
    pub icons: Option<Icons>,
    pub ultra_sun_ultra_moon: Option<UltraSunUltraMoon>,
}

#[derive(Debug)]
pub struct Icons {
    pub front_default: Option<String>,
    pub front_female: Option<String>,
}

#[derive(Debug)]
pub struct UltraSunUltraMoon {
    pub front_default: Option<String>,
    pub front_female: Option<String>,
    pub front_shiny: Option<String>,
    pub front_shiny_female: Option<String>,
}

#[derive(Debug)]
pub struct GenerationVIII {
    pub icons: Option<Icons>,
}

} // verus!
