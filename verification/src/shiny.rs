//! The difficulty predicate: does a hash start with a run of one number?

use crate::decimal::{decimal_chars, digit_char, push_decimal};
use vstd::arithmetic::div_mod::{lemma_fundamental_div_mod_converse, lemma_small_mod};
use vstd::prelude::*;
use vstd::string::StrSliceExecFns;

verus! {

/// `pattern` written `times` times in a row.
pub open spec fn repeated(pattern: Seq<char>, times: nat) -> Seq<char> {
    Seq::new(pattern.len() * times, |i: int| pattern[i % (pattern.len() as int)])
}

/// The run that a hash has to start with: the decimal notation of `number`,
/// `difficulty` times over.
pub open spec fn shiny_prefix(difficulty: nat, number: nat) -> Seq<char> {
    repeated(decimal_chars(number), difficulty)
}

/// Whether `hash` starts with the decimal notation of `number` repeated
/// `difficulty` times.
pub open spec fn shiny(hash: Seq<char>, difficulty: nat, number: nat) -> bool {
    shiny_prefix(difficulty, number).is_prefix_of(hash)
}

/// For a single digit the predicate reads character by character: the hash
/// has at least `difficulty` characters and each of the first `difficulty`
/// is that digit.
pub proof fn lemma_shiny_single_digit(hash: Seq<char>, difficulty: nat, digit: nat)
    requires
        digit < 10,
    ensures
        shiny(hash, difficulty, digit) <==> (difficulty <= hash.len() && forall|i: int|
            0 <= i < difficulty ==> hash[i] == digit_char(digit)),
{
    let prefix = shiny_prefix(difficulty, digit);
    assert(decimal_chars(digit) =~= seq![digit_char(digit)]);
    assert(prefix.len() == difficulty) by (nonlinear_arith)
        requires
            prefix.len() == decimal_chars(digit).len() * difficulty,
            decimal_chars(digit).len() == 1,
    ;
    assert forall|i: int| 0 <= i < difficulty implies #[trigger] prefix[i] == digit_char(digit) by {
        lemma_small_mod(0, 1);
    }
    if shiny(hash, difficulty, digit) {
        assert forall|i: int| 0 <= i < difficulty implies hash[i] == digit_char(digit) by {
            assert(hash.subrange(0, prefix.len() as int)[i] == prefix[i]);
        }
    }
    if difficulty <= hash.len() && forall|i: int|
        0 <= i < difficulty ==> hash[i] == digit_char(digit) {
        assert(prefix =~= hash.subrange(0, prefix.len() as int));
    }
}

/// Whether `hash` starts with `number`, in decimal, repeated `difficulty`
/// times.
pub fn is_shiny(hash: &str, difficulty: &usize, number: usize) -> (result: bool)
    ensures
        result == shiny(hash@, *difficulty as nat, number as nat),
{
    let mut pattern = String::new();
    push_decimal(&mut pattern, number as u64);
    let pattern = pattern.as_str();
    let width = pattern.unicode_len();
    let hash_len = hash.unicode_len();
    assert(pattern@ =~= decimal_chars(number as nat));
    assert(width >= 1);
    let ghost prefix = shiny_prefix(*difficulty as nat, number as nat);
    let mut pos: usize = 0;
    let mut within: usize = 0;
    let mut rounds: usize = 0;
    while rounds < *difficulty
        invariant
            width == pattern@.len(),
            width >= 1,
            hash_len == hash@.len(),
            pattern@ == decimal_chars(number as nat),
            prefix == shiny_prefix(*difficulty as nat, number as nat),
            rounds <= *difficulty,
            within < width,
            pos == rounds * width + within,
            pos <= hash_len,
            pos <= prefix.len(),
            rounds == *difficulty ==> within == 0,
            forall|i: int| 0 <= i < pos ==> hash@[i] == #[trigger] prefix[i],
        decreases *difficulty - rounds, width - within,
    {
        assert(pos < prefix.len()) by (nonlinear_arith)
            requires
                pos == rounds * width + within,
                within < width,
                rounds < *difficulty,
                prefix.len() == width * *difficulty,
        ;
        if pos >= hash_len {
            return false;
        }
        assert(prefix[pos as int] == pattern@[within as int]) by {
            lemma_fundamental_div_mod_converse(
                pos as int,
                width as int,
                rounds as int,
                within as int,
            );
        }
        if hash.get_char(pos) != pattern.get_char(within) {
            assert(!prefix.is_prefix_of(hash@)) by {
                if prefix.is_prefix_of(hash@) {
                    assert(hash@.subrange(0, prefix.len() as int)[pos as int] == prefix[pos as int]);
                }
            }
            return false;
        }
        pos += 1;
        within += 1;
        if within == width {
            assert((rounds + 1) * width == rounds * width + width) by (nonlinear_arith);
            within = 0;
            rounds += 1;
        }
    }
    assert(pos == prefix.len()) by (nonlinear_arith)
        requires
            pos == rounds * width + within,
            within == 0,
            rounds == *difficulty,
            prefix.len() == width * *difficulty,
    ;
    assert(prefix =~= hash@.subrange(0, prefix.len() as int));
    true
}

} // verus!
