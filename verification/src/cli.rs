//! What the command line accepts: difficulties, digits and generations, and
//! which part of the collection a generation stands for.

use crate::decimal::{parse_usize, parsed_usize};
use vstd::prelude::*;

verus! {

/// Whether `n` is a single digit other than zero.
pub open spec fn is_level(n: usize) -> bool {
    1 <= n <= 9
}

/// Reads a difficulty or a digit: a numeral from 1 to 9. Anything else that
/// is a numeral is refused with a message.
pub fn parse_difficulty_and_number(input: &str) -> (r: Result<usize, String>)
    requires
        parsed_usize(input@) is Some,
    ensures
        match r {
            Ok(n) => parsed_usize(input@) == Some(n) && is_level(n),
            Err(message) => !is_level(parsed_usize(input@)->0) && message@
                == "Difficulty and number must be between 1 and 9"@,
        },
{
    let num = parse_usize(input).unwrap();
    if num > 0 && num < 10 {
        Ok(num)
    } else {
        Err("Difficulty and number must be between 1 and 9".to_owned())
    }
}

/// Reads a generation: a numeral from 1 to 9. Anything else that is a
/// numeral is refused with a message.
pub fn parse_generation(input: &str) -> (r: Result<usize, String>)
    requires
        parsed_usize(input@) is Some,
    ensures
        match r {
            Ok(n) => parsed_usize(input@) == Some(n) && is_level(n),
            Err(message) => !is_level(parsed_usize(input@)->0) && message@
                == "Generation must be between 1 and 9"@,
        },
{
    let num = parse_usize(input).unwrap();
    if num > 0 && num <= 9 {
        Ok(num)
    } else {
        Err("Generation must be between 1 and 9".to_owned())
    }
}

/// The identifiers between which the collection is searched for a
/// generation: the first and the second bound of the query.
pub open spec fn generation_bounds(generation: usize) -> (i32, i32) {
    if generation == 1 {
        (1, 151)
    } else if generation == 2 {
        (152, 251)
    } else if generation == 3 {
        (252, 386)
    } else if generation == 4 {
        (387, 493)
    } else if generation == 5 {
        (494, 649)
    } else if generation == 6 {
        (650, 721)
    } else if generation == 7 {
        (722, 809)
    } else if generation == 8 {
        (810, 905)
    } else {
        (906, 1025)
    }
}

/// Which entries of the collection to list.
#[derive(Clone, Copy, Debug, PartialEq, Eq, Structural)]
pub enum CollectionQuery {
    /// Every entry.
    Everything,
    /// The entries whose identifier lies between the two bounds, both
    /// included.
    Between { start: i32, end: i32 },
}

/// The query for a generation, or for the whole collection when none is
/// given.
pub fn collection_query(generation: Option<usize>) -> (query: CollectionQuery)
    requires
        generation matches Some(g) ==> is_level(g),
    ensures
        query == match generation {
            Some(g) => CollectionQuery::Between {
                start: generation_bounds(g).0,
                end: generation_bounds(g).1,
            },
            None => CollectionQuery::Everything,
        },
{
    match generation {
        Some(g) => {
            let (start, end): (i32, i32) = if g == 1 {
                (1, 151)
            } else if g == 2 {
                (152, 251)
            } else if g == 3 {
                (252, 386)
            } else if g == 4 {
                (387, 493)
            } else if g == 5 {
                (494, 649)
            } else if g == 6 {
                (650, 721)
            } else if g == 7 {
                (722, 809)
            } else if g == 8 {
                (810, 905)
            } else {
                (906, 1025)
            };
            CollectionQuery::Between { start, end }
        },
        None => CollectionQuery::Everything,
    }
}

} // verus!
