use vstd::prelude::*;

use rand::RngExt;

verus! {

/// Why a round could not start.
#[derive(Clone, Copy, PartialEq, Eq, Structural, Debug)]
pub enum GameError {
    /// The word list could not be opened or read.
    SourceUnavailable,
    /// The word list held no line at all.
    EmptyWordList,
}

/// Relies on rand::rng and rand::RngExt::random_range: a uniformly random
/// value in `0..n`. The call panics only on an empty range, which the
/// precondition rules out.
#[verifier::external_body]
fn random_index(n: usize) -> (r: usize)
    requires
        n > 0,
    ensures
        r < n,
{
    rand::rng().random_range(0..n)
}

/// Picks one word uniformly at random from the candidate lines; fails with
/// `EmptyWordList` exactly when there is no candidate.
pub fn pick_word(words: &Vec<String>) -> (r: Result<String, GameError>)
    ensures
        r is Ok <==> words@.len() > 0,
        r is Err ==> r == Result::<String, GameError>::Err(GameError::EmptyWordList),
        (r matches Ok(w) ==> exists|i: int| 0 <= i < words@.len() && w == words@[i]),
{
    if words.len() == 0 {
        return Err(GameError::EmptyWordList);
    }
    let k = random_index(words.len());
    Ok(words[k].clone())
}

/// Turns one line of player input into a guess: the first character of the
/// line, or the sentinel `'*'` when the line is empty or the read failed
/// (`None`). The sentinel matches no real letter, so degraded input counts
/// as a wrong guess.
pub fn interpret_input(line: Option<&str>) -> (guess: char)
    ensures
        (match line {
            Option::Some(s) => if s@.len() == 0 {
                guess == '*'
            } else {
                guess == s@[0]
            },
            Option::None => guess == '*',
        }),
{
    match line {
        Some(s) => {
            if s.unicode_len() == 0 {
                '*'
            } else {
                s.get_char(0)
            }
        },
        None => '*',
    }
}

} // verus!
