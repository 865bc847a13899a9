//! Box-drawn text of a hand: rows of at most seven cards, five lines per row.

use crate::card::{rank_glyph, string_of_chars, suit_glyph, Card, Rank, Suit};
use crate::hand::Hand;
use vstd::prelude::*;

verus! {

/// The five lines that make up a row of cards.
#[derive(Clone, Copy, PartialEq, Eq, Structural)]
pub enum Line {
    TopBorder,
    TopRank,
    Middle,
    BottomRank,
    BottomBorder,
}

/// The most cards drawn side by side in one row.
pub const ROW_WIDTH: usize = 7;

/// The seven characters of one card in one line.
pub open spec fn cell(line: Line, c: (Rank, Suit)) -> Seq<char> {
    let g = rank_glyph(c.0);
    match line {
        Line::TopBorder => seq!['┌', '─', '─', '─', '─', '─', '┐'],
        Line::TopRank => if g == '1' {
            seq!['│', '1', '0', ' ', ' ', ' ', '│']
        } else {
            seq!['│', g, ' ', ' ', ' ', ' ', '│']
        },
        Line::Middle => seq!['│', ' ', ' ', suit_glyph(c.1), ' ', ' ', '│'],
        Line::BottomRank => if g == '1' {
            seq!['│', ' ', ' ', ' ', '1', '0', '│']
        } else {
            seq!['│', ' ', ' ', ' ', ' ', g, '│']
        },
        Line::BottomBorder => seq!['└', '─', '─', '─', '─', '─', '┘'],
    }
}

/// The cells of every card of `row` in one line, left to right.
pub open spec fn cells(line: Line, row: Seq<(Rank, Suit)>) -> Seq<char>
    decreases row.len(),
{
    if row.len() == 0 {
        Seq::empty()
    } else {
        cells(line, row.drop_last()) + cell(line, row.last())
    }
}

/// One line of a row, ended by a newline.
pub open spec fn line_text(line: Line, row: Seq<(Rank, Suit)>) -> Seq<char> {
    cells(line, row) + seq!['\n']
}

/// The five lines of one row of cards.
pub open spec fn row_text(row: Seq<(Rank, Suit)>) -> Seq<char> {
    line_text(Line::TopBorder, row) + line_text(Line::TopRank, row) + line_text(Line::Middle, row)
        + line_text(Line::BottomRank, row) + line_text(Line::BottomBorder, row)
}

/// The rows of a hand: consecutive groups of `ROW_WIDTH` cards, the last one
/// possibly shorter, one row after the other.
pub open spec fn rows_text(cards: Seq<(Rank, Suit)>) -> Seq<char>
    decreases cards.len(),
{
    if cards.len() == 0 {
        Seq::empty()
    } else if cards.len() <= ROW_WIDTH {
        row_text(cards)
    } else {
        row_text(cards.take(ROW_WIDTH as int)) + rows_text(cards.skip(ROW_WIDTH as int))
    }
}

/// The terminal control sequence that clears the screen.
pub open spec fn clear_screen() -> Seq<char> {
    seq!['\u{1b}', '[', '2', 'J']
}

/// The whole text of a hand: the screen is cleared, then its rows follow.
pub open spec fn hand_text(cards: Seq<(Rank, Suit)>) -> Seq<char> {
    clear_screen() + rows_text(cards)
}

/// Appends the characters of `s`.
fn push_all(buf: &mut Vec<char>, s: &[char])
    ensures
        final(buf)@ == old(buf)@ + s@,
{
    let ghost start = buf@;
    let mut i: usize = 0;
    while i < s.len()
        invariant
            i <= s@.len(),
            buf@ == start + s@.take(i as int),
        decreases s@.len() - i,
    {
        buf.push(s[i]);
        assert(s@.take(i + 1) =~= s@.take(i as int).push(s@[i as int]));
        i = i + 1;
    }
    assert(s@.take(s@.len() as int) =~= s@);
}

/// The cell of `card` in `line`.
fn card_cell(line: Line, card: &Card) -> (r: [char; 7])
    ensures
        r@ == cell(line, card@),
{
    let g = card.get_rank();
    let r = match line {
        Line::TopBorder => ['┌', '─', '─', '─', '─', '─', '┐'],
        Line::TopRank => if g == '1' {
            ['│', '1', '0', ' ', ' ', ' ', '│']
        } else {
            ['│', g, ' ', ' ', ' ', ' ', '│']
        },
        Line::Middle => ['│', ' ', ' ', card.get_suit(), ' ', ' ', '│'],
        Line::BottomRank => if g == '1' {
            ['│', ' ', ' ', ' ', '1', '0', '│']
        } else {
            ['│', ' ', ' ', ' ', ' ', g, '│']
        },
        Line::BottomBorder => ['└', '─', '─', '─', '─', '─', '┘'],
    };
    assert(r@ =~= cell(line, card@));
    r
}

/// Appends one line of `row`.
fn push_line(buf: &mut Vec<char>, line: Line, row: &[Card])
    ensures
        final(buf)@ == old(buf)@ + line_text(line, row@.map_values(|c: Card| c@)),
{
    let ghost start = buf@;
    let ghost cards = row@.map_values(|c: Card| c@);
    let mut i: usize = 0;
    while i < row.len()
        invariant
            i <= row@.len(),
            cards == row@.map_values(|c: Card| c@),
            buf@ == start + cells(line, cards.take(i as int)),
        decreases row@.len() - i,
    {
        let c = card_cell(line, &row[i]);
        push_all(buf, &c);
        assert(cards.take(i + 1).drop_last() =~= cards.take(i as int));
        assert(buf@ =~= start + cells(line, cards.take(i + 1)));
        i = i + 1;
    }
    assert(cards.take(row@.len() as int) =~= cards);
    buf.push('\n');
    assert(buf@ =~= start + line_text(line, cards));
}

/// Appends the five lines of one row.
fn push_row(buf: &mut Vec<char>, row: &[Card])
    ensures
        final(buf)@ == old(buf)@ + row_text(row@.map_values(|c: Card| c@)),
{
    let ghost start = buf@;
    let ghost cards = row@.map_values(|c: Card| c@);
    push_line(buf, Line::TopBorder, row);
    push_line(buf, Line::TopRank, row);
    push_line(buf, Line::Middle, row);
    push_line(buf, Line::BottomRank, row);
    push_line(buf, Line::BottomBorder, row);
    assert(buf@ =~= start + row_text(cards));
}

impl Hand {
    /// The five lines of one row of cards, drawn side by side.
    pub fn display_row(row: &[Card]) -> (r: String)
        ensures
            r@ == row_text(row@.map_values(|c: Card| c@)),
    {
        let mut buf: Vec<char> = Vec::new();
        push_row(&mut buf, row);
        assert(buf@ =~= row_text(row@.map_values(|c: Card| c@)));
        string_of_chars(&buf)
    }

    /// The text of the whole hand: the clear-screen sequence, then its rows of
    /// at most seven cards.
    pub fn display(&self) -> (r: String)
        ensures
            r@ == hand_text(self@),
    {
        let mut buf: Vec<char> = Vec::new();
        push_all(&mut buf, &['\u{1b}', '[', '2', 'J']);
        let mut rest: &[Card] = self.as_slice();
        assert(buf@ =~= clear_screen());
        while rest.len() > 0
            invariant
                buf@ + rows_text(rest@.map_values(|c: Card| c@)) == hand_text(self@),
            decreases rest@.len(),
        {
            let ghost seen = buf@;
            let ghost cards = rest@.map_values(|c: Card| c@);
            if rest.len() <= ROW_WIDTH {
                push_row(&mut buf, rest);
                rest = &[];
                assert(rest@.map_values(|c: Card| c@) =~= Seq::<(Rank, Suit)>::empty());
                assert(buf@ + rows_text(rest@.map_values(|c: Card| c@)) =~= seen + rows_text(
                    cards,
                ));
            } else {
                let (row, tail) = rest.split_at(ROW_WIDTH);
                push_row(&mut buf, row);
                rest = tail;
                assert(row@.map_values(|c: Card| c@) =~= cards.take(ROW_WIDTH as int));
                assert(tail@.map_values(|c: Card| c@) =~= cards.skip(ROW_WIDTH as int));
                assert(buf@ + rows_text(rest@.map_values(|c: Card| c@)) =~= seen + rows_text(
                    cards,
                ));
            }
        }
        assert(rest@.map_values(|c: Card| c@) =~= Seq::<(Rank, Suit)>::empty());
        assert(buf@ =~= hand_text(self@));
        string_of_chars(&buf)
    }
}

} // verus!
