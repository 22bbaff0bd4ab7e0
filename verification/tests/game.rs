use hangman::render::{render_figure, render_progress};
use hangman::source::{interpret_input, pick_word, GameError};
use hangman::state::{
    check_progress, default_figure_template, new_round, store_letters, store_stick_man,
    FigurePart, GameStatus, Letter, RoundState,
};

fn template() -> Vec<String> {
    default_figure_template()
}

fn fresh_round(word: &str) -> RoundState {
    new_round(&String::from(word), &template())
}

fn revealed_count(round: &RoundState) -> usize {
    round.letters.iter().filter(|l| l.revealed).count()
}

fn used_count(round: &RoundState) -> usize {
    round.parts.iter().filter(|p| p.used).count()
}

#[test]
fn letters_stored_in_word_order_unrevealed() {
    let letters = store_letters(&String::from("banana"));
    assert_eq!(letters.len(), 6);
    let chars: Vec<char> = letters.iter().map(|l| l.character).collect();
    assert_eq!(chars, vec!['b', 'a', 'n', 'a', 'n', 'a']);
    assert!(letters.iter().all(|l| !l.revealed));
}

#[test]
fn stick_man_stored_in_template_order_unused() {
    let parts = store_stick_man(&template());
    assert_eq!(parts.len(), 5);
    assert_eq!(parts[0].glyph, "  O");
    assert_eq!(parts[1].glyph, " /|\\");
    assert_eq!(parts[2].glyph, "/ | \\ ");
    assert_eq!(parts[3].glyph, " / \\");
    assert_eq!(parts[4].glyph, "/   \\");
    assert!(parts.iter().all(|p| !p.used));
}

#[test]
fn default_template_has_five_parts() {
    let t = template();
    assert_eq!(t.len(), 5);
    assert_eq!(t[0], "  O");
    assert_eq!(t[4], "/   \\");
}

#[test]
fn fresh_round_is_in_progress() {
    let round = fresh_round("cat");
    assert_eq!(round.status(), GameStatus::InProgress);
    assert_eq!(
        check_progress(&round.parts, &round.letters),
        GameStatus::InProgress
    );
}

#[test]
fn lost_when_all_parts_used_and_a_letter_hidden() {
    let mut round = fresh_round("ab");
    for p in round.parts.iter_mut() {
        p.used = true;
    }
    round.letters[0].revealed = true;
    assert_eq!(round.status(), GameStatus::Lost);
}

#[test]
fn won_when_all_letters_revealed_regardless_of_parts() {
    let mut round = fresh_round("ab");
    for l in round.letters.iter_mut() {
        l.revealed = true;
    }
    for p in round.parts.iter_mut() {
        p.used = true;
    }
    // Win is decided strictly before loss.
    assert_eq!(round.status(), GameStatus::Won);
}

#[test]
fn correct_guess_reveals_every_matching_letter() {
    let mut round = fresh_round("banana");
    let hit = round.apply_guess('a');
    assert!(hit);
    let revealed: Vec<bool> = round.letters.iter().map(|l| l.revealed).collect();
    assert_eq!(revealed, vec![false, true, false, true, false, true]);
    assert_eq!(used_count(&round), 0);
}

#[test]
fn wrong_guess_uses_first_unused_part() {
    let mut round = fresh_round("cat");
    let hit = round.apply_guess('z');
    assert!(!hit);
    let used: Vec<bool> = round.parts.iter().map(|p| p.used).collect();
    assert_eq!(used, vec![true, false, false, false, false]);
    let hit2 = round.apply_guess('q');
    assert!(!hit2);
    let used2: Vec<bool> = round.parts.iter().map(|p| p.used).collect();
    assert_eq!(used2, vec![true, true, false, false, false]);
}

#[test]
fn guessing_is_case_sensitive() {
    let mut round = fresh_round("Cat");
    assert!(!round.apply_guess('c'));
    assert!(round.apply_guess('C'));
}

#[test]
fn distinct_correct_guesses_win_without_loss() {
    // A guess sequence made only of the word's distinct characters wins
    // within that many turns and never comes near a loss.
    let mut round = fresh_round("cat");
    for (i, g) in ['c', 'a', 't'].iter().enumerate() {
        assert_ne!(round.status(), GameStatus::Lost);
        assert!(round.apply_guess(*g));
        assert_eq!(used_count(&round), 0);
        if i < 2 {
            assert_eq!(round.status(), GameStatus::InProgress);
        }
    }
    assert_eq!(round.status(), GameStatus::Won);
}

#[test]
fn counts_never_decrease_across_guesses() {
    let mut round = fresh_round("banana");
    let mut last_revealed = revealed_count(&round);
    let mut last_used = used_count(&round);
    for g in ['x', 'a', 'a', 'y', 'b', 'z', 'n', 'q'] {
        round.apply_guess(g);
        let r = revealed_count(&round);
        let u = used_count(&round);
        assert!(r >= last_revealed);
        assert!(u >= last_used);
        last_revealed = r;
        last_used = u;
    }
}

#[test]
fn repeating_a_matching_guess_changes_nothing() {
    let mut round = fresh_round("banana");
    assert!(round.apply_guess('n'));
    let revealed_once: Vec<bool> = round.letters.iter().map(|l| l.revealed).collect();
    let used_once: Vec<bool> = round.parts.iter().map(|p| p.used).collect();
    assert!(round.apply_guess('n'));
    let revealed_twice: Vec<bool> = round.letters.iter().map(|l| l.revealed).collect();
    let used_twice: Vec<bool> = round.parts.iter().map(|p| p.used).collect();
    assert_eq!(revealed_once, revealed_twice);
    assert_eq!(used_once, used_twice);
}

#[test]
fn progress_line_for_hidden_cat() {
    let round = fresh_round("cat");
    assert_eq!(render_progress(&round.letters), "Progress: _  _  _ ");
}

#[test]
fn progress_line_shows_revealed_letters() {
    let mut round = fresh_round("cat");
    round.apply_guess('a');
    assert_eq!(render_progress(&round.letters), "Progress: _  a  _ ");
}

#[test]
fn progress_line_for_empty_word() {
    let letters: Vec<Letter> = Vec::new();
    assert_eq!(render_progress(&letters), "Progress:");
}

#[test]
fn figure_shows_only_used_parts_in_order() {
    let mut parts = store_stick_man(&template());
    assert_eq!(render_figure(&parts).len(), 0);
    parts[0].used = true;
    parts[2].used = true;
    let lines = render_figure(&parts);
    assert_eq!(lines, vec![String::from("  O"), String::from("/ | \\ ")]);
}

#[test]
fn five_wrong_guesses_lose_and_a_sixth_changes_nothing() {
    let mut round = fresh_round("go");
    for i in 0..5 {
        assert_eq!(round.status(), GameStatus::InProgress);
        assert!(!round.apply_guess('x'));
        assert_eq!(used_count(&round), i + 1);
    }
    // The loss arrives exactly when the fifth part is used.
    assert_eq!(round.status(), GameStatus::Lost);
    // A sixth wrong guess past the terminal state is a safe no-op.
    assert!(!round.apply_guess('x'));
    assert_eq!(used_count(&round), 5);
    assert_eq!(revealed_count(&round), 0);
    assert_eq!(round.status(), GameStatus::Lost);
}

#[test]
fn guessing_go_wins_with_no_parts_used() {
    let mut round = fresh_round("go");
    assert!(round.apply_guess('g'));
    assert_eq!(revealed_count(&round), 1);
    assert_eq!(round.status(), GameStatus::InProgress);
    assert!(round.apply_guess('o'));
    assert_eq!(revealed_count(&round), 2);
    assert_eq!(round.status(), GameStatus::Won);
    assert_eq!(used_count(&round), 0);
}

#[test]
fn pick_word_fails_only_on_empty_list() {
    let empty: Vec<String> = Vec::new();
    assert_eq!(pick_word(&empty), Err(GameError::EmptyWordList));
}

#[test]
fn pick_word_returns_a_listed_word() {
    let words = vec![
        String::from("alpha"),
        String::from("beta"),
        String::from("gamma"),
    ];
    for _ in 0..50 {
        let w = pick_word(&words).unwrap();
        assert!(words.contains(&w));
    }
}

#[test]
fn pick_word_from_single_word_list() {
    let words = vec![String::from("only")];
    for _ in 0..10 {
        assert_eq!(pick_word(&words).unwrap(), "only");
    }
}

#[test]
fn input_takes_first_character() {
    assert_eq!(interpret_input(Some("hello")), 'h');
    assert_eq!(interpret_input(Some("x")), 'x');
}

#[test]
fn degraded_input_yields_sentinel() {
    assert_eq!(interpret_input(Some("")), '*');
    assert_eq!(interpret_input(None), '*');
}

#[test]
fn sentinel_counts_as_wrong_guess() {
    let mut round = fresh_round("go");
    let guess = interpret_input(Some(""));
    assert!(!round.apply_guess(guess));
    assert_eq!(used_count(&round), 1);
}

#[test]
fn error_values_are_distinct() {
    assert_ne!(GameError::SourceUnavailable, GameError::EmptyWordList);
}

#[test]
fn a_part_once_used_never_reverts() {
    let mut round = fresh_round("ab");
    round.apply_guess('z');
    assert!(round.parts[0].used);
    round.apply_guess('a');
    round.apply_guess('b');
    assert!(round.parts[0].used);
    assert_eq!(round.status(), GameStatus::Won);
}

#[test]
fn round_of_empty_template_with_hidden_letters_is_lost() {
    let parts: Vec<FigurePart> = Vec::new();
    let letters = store_letters(&String::from("a"));
    assert_eq!(check_progress(&parts, &letters), GameStatus::Lost);
}
