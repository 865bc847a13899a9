//! Laws of the deck, of drawing and moving cards, and of the rendering.

use crate::card::{rank_glyph, Face, Rank, Suit};
use crate::hand::{draw_outcome, moved_between, rank_at, standard_deck, suit_run};
use crate::render::{cell, Line};
use vstd::multiset::Multiset;
use vstd::prelude::*;

verus! {

broadcast use vstd::seq_lib::group_to_multiset_ensures, vstd::multiset::group_multiset_axioms;

/// The position of a suit in deck order.
spec fn suit_index(s: Suit) -> int {
    match s {
        Suit::Diamonds => 0,
        Suit::Clubs => 1,
        Suit::Hearts => 2,
        Suit::Spades => 3,
    }
}

/// The position of a rank within a suit's run.
spec fn rank_index(r: Rank) -> int {
    match r {
        Rank::Number(n) => n - 1,
        Rank::Face(Face::King) => 10,
        Rank::Face(Face::Queen) => 11,
        Rank::Face(Face::Jack) => 12,
    }
}

/// Where a card stands in the full deck.
spec fn deck_index(c: (Rank, Suit)) -> int {
    13 * suit_index(c.1) + rank_index(c.0)
}

proof fn lemma_deck_index(i: int)
    requires
        0 <= i < 52,
    ensures
        deck_index(standard_deck()[i]) == i,
{
    let d = standard_deck();
    let s = if i < 13 {
        Suit::Diamonds
    } else if i < 26 {
        Suit::Clubs
    } else if i < 39 {
        Suit::Hearts
    } else {
        Suit::Spades
    };
    let j = i - 13 * suit_index(s);
    assert(d[i] == suit_run(s)[j]);
    assert(rank_index(rank_at(j)) == j);
}

/// The full deck holds 52 cards, no two of them with the same rank and suit.
pub proof fn lemma_full_deck_distinct()
    ensures
        standard_deck().len() == 52,
        standard_deck().no_duplicates(),
{
    let d = standard_deck();
    assert forall|i: int, j: int| 0 <= i < d.len() && 0 <= j < d.len() && i != j implies d[i]
        != d[j] by {
        lemma_deck_index(i);
        lemma_deck_index(j);
    }
}

/// Drawing from an empty hand yields nothing and leaves the hand empty, so
/// further draws yield nothing too.
pub proof fn lemma_draw_from_empty(r: Option<(Rank, Suit)>, after: Seq<(Rank, Suit)>)
    requires
        draw_outcome(Seq::empty(), r, after),
    ensures
        r is None,
        after.len() == 0,
{
}

/// Along a run of draws, the cards drawn so far and the cards left make up
/// the starting hand.
proof fn lemma_draws_conserve(states: Seq<Seq<(Rank, Suit)>>, drawn: Seq<(Rank, Suit)>, k: int)
    requires
        states.len() == drawn.len() + 1,
        0 <= k <= drawn.len(),
        forall|i: int|
            0 <= i < drawn.len() ==> draw_outcome(
                #[trigger] states[i],
                Some(drawn[i]),
                states[i + 1],
            ),
    ensures
        drawn.take(k).to_multiset().add(states[k].to_multiset()) == states[0].to_multiset(),
        states[k].len() + k == states[0].len(),
    decreases k,
{
    if k == 0 {
        assert(drawn.take(0) =~= Seq::empty());
        assert(drawn.take(0).to_multiset().add(states[0].to_multiset()) =~= states[0].to_multiset());
    } else {
        lemma_draws_conserve(states, drawn, k - 1);
        assert(draw_outcome(states[k - 1], Some(drawn[k - 1]), states[k]));
        let before = states[k - 1];
        let c = drawn[k - 1];
        let i = choose|i: int| 0 <= i < before.len() && before[i] == c && states[k] == before.remove(i);
        assert(states[k].to_multiset() == before.to_multiset().remove(c));
        assert(before.to_multiset().contains(c));
        assert(drawn.take(k) =~= drawn.take(k - 1).push(c));
        assert(drawn.take(k).to_multiset().add(states[k].to_multiset()) =~= drawn.take(
            k - 1,
        ).to_multiset().add(before.to_multiset()));
    }
}

/// Drawing from the full deck until it is empty draws each of its 52 cards
/// exactly once.
pub proof fn lemma_draws_exhaust_deck(states: Seq<Seq<(Rank, Suit)>>, drawn: Seq<(Rank, Suit)>)
    requires
        states.len() == drawn.len() + 1,
        states[0] == standard_deck(),
        forall|i: int|
            0 <= i < drawn.len() ==> draw_outcome(
                #[trigger] states[i],
                Some(drawn[i]),
                states[i + 1],
            ),
        states.last().len() == 0,
    ensures
        drawn.len() == 52,
        drawn.to_multiset() == standard_deck().to_multiset(),
        forall|c: (Rank, Suit)| #[trigger]
            standard_deck().contains(c) ==> drawn.to_multiset().count(c) == 1,
        drawn.no_duplicates(),
{
    let n = drawn.len() as int;
    lemma_draws_conserve(states, drawn, n);
    lemma_full_deck_distinct();
    assert(drawn.take(n) =~= drawn);
    assert(states[n].to_multiset() =~= Multiset::empty());
    assert(drawn.to_multiset() =~= standard_deck().to_multiset());
    standard_deck().lemma_multiset_has_no_duplicates();
    assert forall|c: (Rank, Suit)| #[trigger]
        drawn.to_multiset().contains(c) implies drawn.to_multiset().count(c) == 1 by {}
    drawn.lemma_multiset_has_no_duplicates_conv();
}

/// Moving more cards than the source holds moves all of them: the source is
/// left empty, and no card is made or lost.
pub proof fn lemma_transfer_drains_source(
    dst: Seq<(Rank, Suit)>,
    src: Seq<(Rank, Suit)>,
    dst2: Seq<(Rank, Suit)>,
    src2: Seq<(Rank, Suit)>,
    num: nat,
)
    requires
        moved_between(dst, src, dst2, src2, num),
        num >= src.len(),
    ensures
        src2.len() == 0,
        dst2.len() == dst.len() + src.len(),
        dst2.len() + src2.len() == dst.len() + src.len(),
        dst2.subrange(0, dst.len() as int) == dst,
        dst2.to_multiset() == dst.to_multiset().add(src.to_multiset()),
{
    let moved = dst2.subrange(dst.len() as int, dst2.len() as int);
    assert(dst2 =~= dst + moved);
    assert(src2 =~= Seq::empty());
    assert(moved.to_multiset() =~= moved.to_multiset().add(src2.to_multiset()));
    vstd::seq_lib::lemma_multiset_commutative(dst, moved);
}

/// A ten is drawn with the glyph `'1'`, and both of its corners read "10".
pub proof fn lemma_ten_corners(s: Suit)
    ensures
        rank_glyph(Rank::Number(10)) == '1',
        cell(Line::TopRank, (Rank::Number(10), s)).subrange(1, 3) == seq!['1', '0'],
        cell(Line::BottomRank, (Rank::Number(10), s)).subrange(4, 6) == seq!['1', '0'],
{
    assert(cell(Line::TopRank, (Rank::Number(10), s)).subrange(1, 3) =~= seq!['1', '0']);
    assert(cell(Line::BottomRank, (Rank::Number(10), s)).subrange(4, 6) =~= seq!['1', '0']);
}

} // verus!
