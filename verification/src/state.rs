use vstd::prelude::*;

verus! {

/// One character position of the target word.
#[derive(Clone, Copy, PartialEq, Eq, Structural, Debug)]
pub struct Letter {
    pub character: char,
    pub revealed: bool,
}

/// One segment of the figure that is drawn piece by piece on wrong guesses.
#[derive(Debug)]
pub struct FigurePart {
    pub glyph: String,
    pub used: bool,
}

/// Outcome of a round as recomputed after every turn.
#[derive(Clone, Copy, PartialEq, Eq, Structural, Debug)]
pub enum GameStatus {
    InProgress,
    Won,
    Lost,
}

/// One round of the game: the word's letters and the figure's parts.
pub struct RoundState {
    pub letters: Vec<Letter>,
    pub parts: Vec<FigurePart>,
}

pub open spec fn all_revealed(letters: Seq<Letter>) -> bool {
    forall|i: int| 0 <= i < letters.len() ==> letters[i].revealed
}

pub open spec fn all_used(parts: Seq<FigurePart>) -> bool {
    forall|i: int| 0 <= i < parts.len() ==> parts[i].used
}

/// Won iff every letter is revealed; otherwise Lost iff every part is used;
/// the win condition is decided strictly before the loss condition.
pub open spec fn status_of(letters: Seq<Letter>, parts: Seq<FigurePart>) -> GameStatus {
    if all_revealed(letters) {
        GameStatus::Won
    } else if all_used(parts) {
        GameStatus::Lost
    } else {
        GameStatus::InProgress
    }
}

/// Whether at least one letter of the word is `guess`.
pub open spec fn matches_some(letters: Seq<Letter>, guess: char) -> bool {
    exists|i: int| 0 <= i < letters.len() && letters[i].character == guess
}

/// Every letter whose character equals `guess` becomes revealed; the rest
/// are unchanged.
pub open spec fn reveal_matching(letters: Seq<Letter>, guess: char) -> Seq<Letter> {
    letters.map_values(
        |l: Letter|
            if l.character == guess {
                Letter { character: l.character, revealed: true }
            } else {
                l
            },
    )
}

/// The first unused part, in template order, becomes used; when every part
/// is already used nothing changes.
pub open spec fn use_first_part(parts: Seq<FigurePart>) -> Seq<FigurePart>
    decreases parts.len(),
{
    if parts.len() == 0 {
        parts
    } else if !parts[0].used {
        parts.update(0, FigurePart { glyph: parts[0].glyph, used: true })
    } else {
        seq![parts[0]] + use_first_part(parts.skip(1))
    }
}

pub proof fn lemma_use_first_part_at(parts: Seq<FigurePart>, k: int)
    requires
        0 <= k < parts.len(),
        forall|j: int| 0 <= j < k ==> parts[j].used,
        !parts[k].used,
    ensures
        use_first_part(parts) == parts.update(
            k,
            FigurePart { glyph: parts[k].glyph, used: true },
        ),
    decreases k,
{
    if k == 0 {
    } else {
        assert(parts[0].used);
        lemma_use_first_part_at(parts.skip(1), k - 1);
        assert(seq![parts[0]] + parts.skip(1).update(
            k - 1,
            FigurePart { glyph: parts.skip(1)[k - 1].glyph, used: true },
        ) =~= parts.update(k, FigurePart { glyph: parts[k].glyph, used: true }));
    }
}

pub proof fn lemma_use_first_part_all_used(parts: Seq<FigurePart>)
    requires
        all_used(parts),
    ensures
        use_first_part(parts) == parts,
    decreases parts.len(),
{
    if parts.len() == 0 {
    } else {
        assert(parts[0].used);
        assert(forall|j: int| 0 <= j < parts.skip(1).len() ==> parts.skip(1)[j].used);
        lemma_use_first_part_all_used(parts.skip(1));
        assert(seq![parts[0]] + parts.skip(1) =~= parts);
    }
}

/// Using a part keeps the length, keeps every glyph, and never clears a
/// `used` flag.
pub proof fn lemma_use_first_part_frame(parts: Seq<FigurePart>)
    ensures
        use_first_part(parts).len() == parts.len(),
        forall|i: int| 0 <= i < parts.len() ==> use_first_part(parts)[i].glyph == parts[i].glyph,
        forall|i: int|
            0 <= i < parts.len() && parts[i].used ==> use_first_part(parts)[i].used,
    decreases parts.len(),
{
    if parts.len() == 0 {
    } else if !parts[0].used {
    } else {
        lemma_use_first_part_frame(parts.skip(1));
        assert(use_first_part(parts) == seq![parts[0]] + use_first_part(parts.skip(1)));
        assert forall|i: int| 0 <= i < parts.len() implies (use_first_part(parts)[i].glyph
            == parts[i].glyph && (parts[i].used ==> use_first_part(parts)[i].used)) by {
            if i == 0 {
                assert(use_first_part(parts)[0] == parts[0]);
            } else {
                assert(use_first_part(parts)[i] == use_first_part(parts.skip(1))[i - 1]);
                assert(parts.skip(1)[i - 1] == parts[i]);
            }
        }
    }
}

/// The fixed five-part figure template, in drawing order: head, torso with
/// arms, alternate torso, spread legs, together legs.
pub fn default_figure_template() -> (template: Vec<String>)
    ensures
        template@.len() == 5,
        template@[0]@ == "  O"@,
        template@[1]@ == " /|\\"@,
        template@[2]@ == "/ | \\ "@,
        template@[3]@ == " / \\"@,
        template@[4]@ == "/   \\"@,
{
    let mut template: Vec<String> = Vec::new();
    template.push(String::from_str("  O"));
    template.push(String::from_str(" /|\\"));
    template.push(String::from_str("/ | \\ "));
    template.push(String::from_str(" / \\"));
    template.push(String::from_str("/   \\"));
    template
}

/// Builds one `Letter` per character of `word`, none revealed yet.
pub fn store_letters(word: &String) -> (letters: Vec<Letter>)
    ensures
        letters@.len() == word@.len(),
        forall|i: int| 0 <= i < letters@.len() ==> letters@[i].character == word@[i],
        forall|i: int| 0 <= i < letters@.len() ==> !letters@[i].revealed,
{
    let s = word.as_str();
    let n = s.unicode_len();
    let mut letters: Vec<Letter> = Vec::new();
    let mut i: usize = 0;
    while i < n
        invariant
            n == s@.len(),
            s@ == word@,
            i <= n,
            letters@.len() == i,
            forall|j: int| 0 <= j < i ==> letters@[j].character == word@[j],
            forall|j: int| 0 <= j < i ==> !letters@[j].revealed,
        decreases n - i,
    {
        let c = s.get_char(i);
        letters.push(Letter { character: c, revealed: false });
        i = i + 1;
    }
    letters
}

/// Builds one `FigurePart` per template entry, glyphs copied in order, none
/// used yet.
pub fn store_stick_man(stick_man_body_parts: &Vec<String>) -> (stick_man: Vec<FigurePart>)
    ensures
        stick_man@.len() == stick_man_body_parts@.len(),
        forall|i: int|
            0 <= i < stick_man@.len() ==> stick_man@[i].glyph == stick_man_body_parts@[i],
        forall|i: int| 0 <= i < stick_man@.len() ==> !stick_man@[i].used,
{
    let n = stick_man_body_parts.len();
    let mut stick_man: Vec<FigurePart> = Vec::new();
    let mut i: usize = 0;
    while i < n
        invariant
            n == stick_man_body_parts@.len(),
            i <= n,
            stick_man@.len() == i,
            forall|j: int|
                0 <= j < i ==> stick_man@[j].glyph == stick_man_body_parts@[j],
            forall|j: int| 0 <= j < i ==> !stick_man@[j].used,
        decreases n - i,
    {
        let glyph = stick_man_body_parts[i].clone();
        stick_man.push(FigurePart { glyph, used: false });
        i = i + 1;
    }
    stick_man
}

/// Starts a round: a fresh letter per character of `word` and a fresh part
/// per template entry.
pub fn new_round(word: &String, figure_template: &Vec<String>) -> (round: RoundState)
    ensures
        round.letters@.len() == word@.len(),
        forall|i: int| 0 <= i < round.letters@.len() ==> round.letters@[i].character == word@[i],
        forall|i: int| 0 <= i < round.letters@.len() ==> !round.letters@[i].revealed,
        round.parts@.len() == figure_template@.len(),
        forall|i: int|
            0 <= i < round.parts@.len() ==> round.parts@[i].glyph == figure_template@[i],
        forall|i: int| 0 <= i < round.parts@.len() ==> !round.parts@[i].used,
{
    RoundState { letters: store_letters(word), parts: store_stick_man(figure_template) }
}

/// Decides the round's status: won before lost, else still in progress.
pub fn check_progress(stick_man: &Vec<FigurePart>, letters: &Vec<Letter>) -> (status: GameStatus)
    ensures
        status == status_of(letters@, stick_man@),
{
    let mut all_letters_revealed = true;
    let n = letters.len();
    let mut i: usize = 0;
    while i < n
        invariant
            n == letters@.len(),
            i <= n,
            all_letters_revealed == forall|j: int| 0 <= j < i ==> letters@[j].revealed,
        decreases n - i,
    {
        if !letters[i].revealed {
            all_letters_revealed = false;
        }
        i = i + 1;
    }

    let mut all_parts_used = true;
    let m = stick_man.len();
    let mut k: usize = 0;
    while k < m
        invariant
            m == stick_man@.len(),
            k <= m,
            all_parts_used == forall|j: int| 0 <= j < k ==> stick_man@[j].used,
        decreases m - k,
    {
        if !stick_man[k].used {
            all_parts_used = false;
        }
        k = k + 1;
    }

    if all_letters_revealed {
        return GameStatus::Won;
    }
    if all_parts_used {
        return GameStatus::Lost;
    }
    GameStatus::InProgress
}

/// The position of the first part still unused, in template order, if any.
pub fn first_unused_index(parts: &Vec<FigurePart>) -> (r: Option<usize>)
    ensures
        (match r {
            Option::Some(k) => k < parts@.len() && !parts@[k as int].used && (forall|j: int|
                0 <= j < k ==> parts@[j].used),
            Option::None => all_used(parts@),
        }),
{
    let n = parts.len();
    let mut k: usize = 0;
    while k < n
        invariant
            n == parts@.len(),
            k <= n,
            forall|j: int| 0 <= j < k ==> parts@[j].used,
        decreases n - k,
    {
        if !parts[k].used {
            return Some(k);
        }
        k = k + 1;
    }
    None
}

impl RoundState {
    /// Recomputes the status from the current letters and parts.
    pub fn status(&self) -> (status: GameStatus)
        ensures
            status == status_of(self.letters@, self.parts@),
    {
        check_progress(&self.parts, &self.letters)
    }

    /// Applies one guessed character: reveals every matching letter, and on
    /// a miss uses up the first unused figure part (a no-op when all parts
    /// are already used).
    pub fn apply_guess(&mut self, guess: char) -> (hit: bool)
        ensures
            hit == matches_some(old(self).letters@, guess),
            final(self).letters@ == reveal_matching(old(self).letters@, guess),
            final(self).parts@ == (if matches_some(old(self).letters@, guess) {
                old(self).parts@
            } else {
                use_first_part(old(self).parts@)
            }),
    {
        let mut hit = false;
        let n = self.letters.len();
        let mut i: usize = 0;
        while i < n
            invariant
                n == old(self).letters@.len(),
                self.letters@.len() == n,
                i <= n,
                self.parts == old(self).parts,
                forall|j: int|
                    0 <= j < i ==> self.letters@[j] == reveal_matching(old(self).letters@, guess)[j],
                forall|j: int| i <= j < n ==> self.letters@[j] == old(self).letters@[j],
                hit == exists|j: int| 0 <= j < i && old(self).letters@[j].character == guess,
            decreases n - i,
        {
            if self.letters[i].character == guess {
                self.letters[i] = Letter { character: guess, revealed: true };
                hit = true;
            }
            i = i + 1;
        }
        proof {
            assert(self.letters@ =~= reveal_matching(old(self).letters@, guess));
        }

        if !hit {
            match first_unused_index(&self.parts) {
                Some(k) => {
                    let glyph = self.parts[k].glyph.clone();
                    self.parts[k] = FigurePart { glyph, used: true };
                    proof {
                        lemma_use_first_part_at(old(self).parts@, k as int);
                        assert(self.parts@ =~= use_first_part(old(self).parts@));
                    }
                },
                None => {
                    proof {
                        lemma_use_first_part_all_used(old(self).parts@);
                    }
                },
            }
        }
        hit
    }
}

} // verus!
