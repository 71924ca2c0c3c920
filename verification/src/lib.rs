//! A small Pokédex toolkit whose centrepiece is a cancellable, partitioned
//! search for a counter whose SHA-256 digest starts with a run of one digit.

pub mod cli;
pub mod decimal;
pub mod digest;
pub mod partition;
pub mod poke;
pub mod search;
pub mod shiny;
pub mod sprite;
pub mod stop;

pub use cli::{collection_query, parse_difficulty_and_number, parse_generation, CollectionQuery};
pub use decimal::parse_usize;
pub use digest::{generate_hash, hex_encode};
pub use partition::{plan_workers, WorkerTask};
pub use poke::{catalogue_url, DbPoke, Pokemon, PokemonType, Stat};
pub use search::{
    RequestError, SearchOutcome, SearchRequest, WorkerExit, DEFAULT_WORKER_COUNT,
};
pub use shiny::is_shiny;
pub use sprite::Sprites;
pub use stop::StopFlag;
