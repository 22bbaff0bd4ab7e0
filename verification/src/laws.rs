use vstd::prelude::*;

use crate::state::{
    all_revealed, all_used, matches_some, reveal_matching, status_of, use_first_part,
    lemma_use_first_part_frame, FigurePart, GameStatus, Letter,
};

verus! {

/// If every figure part is used and at least one letter is still hidden,
/// the round is lost.
pub proof fn lemma_lost_when_figure_full(letters: Seq<Letter>, parts: Seq<FigurePart>)
    requires
        all_used(parts),
        !all_revealed(letters),
    ensures
        status_of(letters, parts) == GameStatus::Lost,
{
}

/// If every letter is revealed the round is won, however many figure parts
/// are used.
pub proof fn lemma_won_when_all_revealed(letters: Seq<Letter>, parts: Seq<FigurePart>)
    requires
        all_revealed(letters),
    ensures
        status_of(letters, parts) == GameStatus::Won,
{
}

/// One turn at the specification level: exactly what `apply_guess` ensures.
/// Matching letters become revealed; on a miss the first unused figure part
/// becomes used.
pub open spec fn step(letters: Seq<Letter>, parts: Seq<FigurePart>, guess: char) -> (
    Seq<Letter>,
    Seq<FigurePart>,
) {
    (
        reveal_matching(letters, guess),
        if matches_some(letters, guess) {
            parts
        } else {
            use_first_part(parts)
        },
    )
}

/// The state after a whole sequence of guesses, applied in order.
pub open spec fn play(
    letters: Seq<Letter>,
    parts: Seq<FigurePart>,
    guesses: Seq<char>,
) -> (Seq<Letter>, Seq<FigurePart>)
    decreases guesses.len(),
{
    if guesses.len() == 0 {
        (letters, parts)
    } else {
        let prev = play(letters, parts, guesses.drop_last());
        step(prev.0, prev.1, guesses.last())
    }
}

/// How many letters are revealed.
pub open spec fn revealed_count(letters: Seq<Letter>) -> nat
    decreases letters.len(),
{
    if letters.len() == 0 {
        0
    } else {
        revealed_count(letters.drop_last()) + (if letters.last().revealed {
            1nat
        } else {
            0nat
        })
    }
}

/// How many figure parts are used.
pub open spec fn used_count(parts: Seq<FigurePart>) -> nat
    decreases parts.len(),
{
    if parts.len() == 0 {
        0
    } else {
        used_count(parts.drop_last()) + (if parts.last().used {
            1nat
        } else {
            0nat
        })
    }
}

proof fn lemma_revealed_count_pointwise(a: Seq<Letter>, b: Seq<Letter>)
    requires
        a.len() == b.len(),
        forall|i: int| 0 <= i < a.len() && a[i].revealed ==> b[i].revealed,
    ensures
        revealed_count(a) <= revealed_count(b),
    decreases a.len(),
{
    if a.len() > 0 {
        lemma_revealed_count_pointwise(a.drop_last(), b.drop_last());
    }
}

proof fn lemma_used_count_pointwise(a: Seq<FigurePart>, b: Seq<FigurePart>)
    requires
        a.len() == b.len(),
        forall|i: int| 0 <= i < a.len() && a[i].used ==> b[i].used,
    ensures
        used_count(a) <= used_count(b),
    decreases a.len(),
{
    if a.len() > 0 {
        lemma_used_count_pointwise(a.drop_last(), b.drop_last());
    }
}

/// One turn keeps the lengths and the characters, never hides a letter, and
/// never clears a figure part, so both counts are non-decreasing.
pub proof fn lemma_step_monotone(letters: Seq<Letter>, parts: Seq<FigurePart>, guess: char)
    ensures
        step(letters, parts, guess).0.len() == letters.len(),
        step(letters, parts, guess).1.len() == parts.len(),
        forall|i: int|
            0 <= i < letters.len() ==> step(letters, parts, guess).0[i].character
                == letters[i].character,
        forall|i: int|
            0 <= i < letters.len() && letters[i].revealed ==> step(
                letters,
                parts,
                guess,
            ).0[i].revealed,
        forall|i: int|
            0 <= i < parts.len() && parts[i].used ==> step(letters, parts, guess).1[i].used,
        revealed_count(letters) <= revealed_count(step(letters, parts, guess).0),
        used_count(parts) <= used_count(step(letters, parts, guess).1),
{
    lemma_use_first_part_frame(parts);
    lemma_revealed_count_pointwise(letters, step(letters, parts, guess).0);
    lemma_used_count_pointwise(parts, step(letters, parts, guess).1);
}

/// Monotonicity: across any sequence of guesses, the count of revealed
/// letters and the count of used figure parts are each non-decreasing from
/// any earlier prefix to any later one.
pub proof fn lemma_counts_monotone(
    letters: Seq<Letter>,
    parts: Seq<FigurePart>,
    guesses: Seq<char>,
    i: int,
    j: int,
)
    requires
        0 <= i <= j <= guesses.len(),
    ensures
        revealed_count(play(letters, parts, guesses.take(i)).0) <= revealed_count(
            play(letters, parts, guesses.take(j)).0,
        ),
        used_count(play(letters, parts, guesses.take(i)).1) <= used_count(
            play(letters, parts, guesses.take(j)).1,
        ),
    decreases j - i,
{
    if i < j {
        lemma_counts_monotone(letters, parts, guesses, i, j - 1);
        assert(guesses.take(j).drop_last() =~= guesses.take(j - 1));
        let prev = play(letters, parts, guesses.take(j - 1));
        lemma_step_monotone(prev.0, prev.1, guesses[j - 1]);
    }
}

/// Idempotence: guessing a character that matches — and so has already
/// revealed every letter bearing it — changes nothing when guessed again.
pub proof fn lemma_reguess_idempotent(letters: Seq<Letter>, parts: Seq<FigurePart>, guess: char)
    requires
        matches_some(letters, guess),
    ensures
        ({
            let once = step(letters, parts, guess);
            step(once.0, once.1, guess) == once
        }),
{
    let once = step(letters, parts, guess);
    assert(matches_some(once.0, guess)) by {
        let i = choose|i: int| 0 <= i < letters.len() && letters[i].character == guess;
        assert(once.0[i].character == guess);
    }
    assert(reveal_matching(once.0, guess) =~= once.0);
}

/// After playing `guesses`, the characters are unchanged and a letter is
/// revealed exactly when it was revealed before or its character was guessed.
pub proof fn lemma_play_letters(letters: Seq<Letter>, parts: Seq<FigurePart>, guesses: Seq<char>)
    ensures
        play(letters, parts, guesses).0.len() == letters.len(),
        forall|i: int|
            0 <= i < letters.len() ==> play(letters, parts, guesses).0[i].character
                == letters[i].character,
        forall|i: int|
            0 <= i < letters.len() ==> (play(letters, parts, guesses).0[i].revealed
                <==> (letters[i].revealed || exists|g: int|
                0 <= g < guesses.len() && guesses[g] == letters[i].character)),
    decreases guesses.len(),
{
    if guesses.len() > 0 {
        let rest = guesses.drop_last();
        let c = guesses.last();
        lemma_play_letters(letters, parts, rest);
        let prev = play(letters, parts, rest);
        let now = play(letters, parts, guesses);
        assert forall|i: int| 0 <= i < letters.len() implies (now.0[i].revealed <==> (
        letters[i].revealed || exists|g: int|
            0 <= g < guesses.len() && guesses[g] == letters[i].character)) by {
            let ch = letters[i].character;
            assert(now.0[i].revealed <==> (prev.0[i].revealed || ch == c));
            if now.0[i].revealed {
                if !letters[i].revealed {
                    if ch == c {
                        assert(guesses[guesses.len() - 1] == ch);
                    } else {
                        let g = choose|g: int| 0 <= g < rest.len() && rest[g] == ch;
                        assert(guesses[g] == ch);
                    }
                }
            } else {
                if exists|g: int| 0 <= g < guesses.len() && guesses[g] == ch {
                    let g = choose|g: int| 0 <= g < guesses.len() && guesses[g] == ch;
                    if g == guesses.len() - 1 {
                        assert(ch == c);
                    } else {
                        assert(rest[g] == ch);
                    }
                    assert(false);
                }
            }
        }
    }
}

/// As long as every guess matches some letter, the figure parts never change.
pub proof fn lemma_play_parts_unchanged(
    letters: Seq<Letter>,
    parts: Seq<FigurePart>,
    guesses: Seq<char>,
)
    requires
        forall|g: int| 0 <= g < guesses.len() ==> matches_some(letters, #[trigger] guesses[g]),
    ensures
        play(letters, parts, guesses).1 == parts,
    decreases guesses.len(),
{
    if guesses.len() > 0 {
        let rest = guesses.drop_last();
        let c = guesses.last();
        assert(forall|g: int| 0 <= g < rest.len() ==> matches_some(letters, #[trigger] rest[g]));
        lemma_play_parts_unchanged(letters, parts, rest);
        lemma_play_letters(letters, parts, rest);
        let prev = play(letters, parts, rest);
        assert(matches_some(prev.0, c)) by {
            assert(matches_some(letters, guesses[guesses.len() - 1]));
            let i = choose|i: int| 0 <= i < letters.len() && letters[i].character == c;
            assert(prev.0[i].character == c);
        }
    }
}

/// On a fresh round, a guess sequence made only of characters of the word
/// never uses a figure part and never loses; once it has covered every
/// character of the word the round is won; and a duplicate-free such
/// sequence is no longer than the number of distinct characters in the word.
pub proof fn lemma_correct_guesses_win(
    letters: Seq<Letter>,
    parts: Seq<FigurePart>,
    guesses: Seq<char>,
)
    requires
        forall|i: int| 0 <= i < letters.len() ==> !letters[i].revealed,
        forall|i: int| 0 <= i < parts.len() ==> !parts[i].used,
        parts.len() > 0,
        forall|g: int| 0 <= g < guesses.len() ==> matches_some(letters, #[trigger] guesses[g]),
    ensures
        forall|k: int|
            0 <= k <= guesses.len() ==> #[trigger] play(letters, parts, guesses.take(k)).1
                == parts,
        forall|k: int|
            0 <= k <= guesses.len() ==> status_of(
                #[trigger] play(letters, parts, guesses.take(k)).0,
                play(letters, parts, guesses.take(k)).1,
            ) != GameStatus::Lost,
        (forall|i: int|
            0 <= i < letters.len() ==> exists|g: int|
                0 <= g < guesses.len() && #[trigger] guesses[g] == #[trigger] letters[i].character)
            ==> status_of(
            play(letters, parts, guesses).0,
            play(letters, parts, guesses).1,
        ) == GameStatus::Won,
        guesses.no_duplicates() ==> guesses.len() <= letters.map_values(
            (|l: Letter| l.character),
        ).to_set().len(),
{
    assert forall|k: int| 0 <= k <= guesses.len() implies #[trigger] play(
        letters,
        parts,
        guesses.take(k),
    ).1 == parts by {
        assert(forall|g: int|
            0 <= g < guesses.take(k).len() ==> matches_some(
                letters,
                #[trigger] guesses.take(k)[g],
            ));
        lemma_play_parts_unchanged(letters, parts, guesses.take(k));
    }
    assert forall|k: int| 0 <= k <= guesses.len() implies status_of(
        #[trigger] play(letters, parts, guesses.take(k)).0,
        play(letters, parts, guesses.take(k)).1,
    ) != GameStatus::Lost by {
        assert(play(letters, parts, guesses.take(k)).1 == parts);
        assert(!parts[0].used);
        assert(!all_used(parts));
    }
    if forall|i: int|
        0 <= i < letters.len() ==> exists|g: int|
            0 <= g < guesses.len() && #[trigger] guesses[g] == #[trigger] letters[i].character {
        lemma_play_letters(letters, parts, guesses);
        let outcome = play(letters, parts, guesses).0;
        assert forall|i: int| 0 <= i < outcome.len() implies outcome[i].revealed by {
            assert(exists|g: int|
                0 <= g < guesses.len() && #[trigger] guesses[g] == letters[i].character);
        }
        assert(all_revealed(outcome));
    }
    if guesses.no_duplicates() {
        let chars = letters.map_values(|l: Letter| l.character);
        broadcast use vstd::seq_lib::seq_to_set_is_finite;

        guesses.unique_seq_to_set();
        assert(guesses.to_set().subset_of(chars.to_set())) by {
            assert forall|c: char| guesses.to_set().contains(c) implies chars.to_set().contains(
                c,
            ) by {
                let g = choose|g: int| 0 <= g < guesses.len() && guesses[g] == c;
                assert(matches_some(letters, guesses[g]));
                let i = choose|i: int| 0 <= i < letters.len() && letters[i].character == c;
                assert(chars[i] == c);
                assert(chars.contains(c));
            }
        }
        vstd::set_lib::lemma_len_subset(guesses.to_set(), chars.to_set());
    }
}

} // verus!
