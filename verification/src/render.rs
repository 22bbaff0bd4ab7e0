use vstd::prelude::*;

use crate::state::{FigurePart, Letter};

verus! {

/// The lines of the figure: the glyph of every used part, in template order;
/// unused parts contribute no line.
pub open spec fn figure_lines(parts: Seq<FigurePart>) -> Seq<String>
    decreases parts.len(),
{
    if parts.len() == 0 {
        Seq::empty()
    } else {
        figure_lines(parts.drop_last()) + (if parts.last().used {
            seq![parts.last().glyph]
        } else {
            Seq::empty()
        })
    }
}

/// The three characters shown for one letter: a space, then the character if
/// revealed or `'_'` if not, then a space.
pub open spec fn progress_slot(l: Letter) -> Seq<char> {
    seq![' ', if l.revealed { l.character } else { '_' }, ' ']
}

/// The progress line: the prefix `"Progress:"` followed by one slot per
/// letter, in word order.
pub open spec fn progress_line(letters: Seq<Letter>) -> Seq<char>
    decreases letters.len(),
{
    if letters.len() == 0 {
        "Progress:"@
    } else {
        progress_line(letters.drop_last()) + progress_slot(letters.last())
    }
}

/// Relies on String::push, which appends exactly one character at the end.
#[verifier::external_body]
fn push_char(s: &mut String, c: char)
    ensures
        final(s)@ == old(s)@.push(c),
{
    s.push(c)
}

/// Renders the figure: one line per used part, in template order.
pub fn render_figure(stick_man: &Vec<FigurePart>) -> (lines: Vec<String>)
    ensures
        lines@ == figure_lines(stick_man@),
{
    let n = stick_man.len();
    let mut lines: Vec<String> = Vec::new();
    let mut i: usize = 0;
    while i < n
        invariant
            n == stick_man@.len(),
            i <= n,
            lines@ == figure_lines(stick_man@.take(i as int)),
        decreases n - i,
    {
        proof {
            assert(stick_man@.take(i + 1).drop_last() =~= stick_man@.take(i as int));
            assert(stick_man@.take(i + 1).last() == stick_man@[i as int]);
        }
        if stick_man[i].used {
            lines.push(stick_man[i].glyph.clone());
            proof {
                assert(lines@ =~= figure_lines(stick_man@.take(i + 1)));
            }
        } else {
            proof {
                assert(lines@ =~= figure_lines(stick_man@.take(i + 1)));
            }
        }
        i = i + 1;
    }
    proof {
        assert(stick_man@.take(n as int) =~= stick_man@);
    }
    lines
}

/// Renders the progress line for the letters, exactly as `progress_line`
/// states it.
pub fn render_progress(letters: &Vec<Letter>) -> (line: String)
    ensures
        line@ == progress_line(letters@),
{
    let mut line = String::from_str("Progress:");
    let n = letters.len();
    let mut i: usize = 0;
    while i < n
        invariant
            n == letters@.len(),
            i <= n,
            line@ == progress_line(letters@.take(i as int)),
        decreases n - i,
    {
        push_char(&mut line, ' ');
        if letters[i].revealed {
            push_char(&mut line, letters[i].character);
        } else {
            push_char(&mut line, '_');
        }
        push_char(&mut line, ' ');
        proof {
            assert(letters@.take(i + 1).drop_last() =~= letters@.take(i as int));
            assert(letters@.take(i + 1).last() == letters@[i as int]);
            assert(line@ =~= progress_line(letters@.take(i as int)) + progress_slot(
                letters@[i as int],
            ));
        }
        i = i + 1;
    }
    proof {
        assert(letters@.take(n as int) =~= letters@);
    }
    line
}

} // verus!
