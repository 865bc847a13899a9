//! Hands of cards: the full deck, uniform random draws, and moving cards from
//! one hand to another.

use crate::card::{Card, Face, Rank, Suit};
use rand::Rng;
use vstd::prelude::*;

verus! {

broadcast use vstd::seq_lib::group_to_multiset_ensures, vstd::multiset::group_multiset_axioms;

/// The rank at position `j < 13` of a suit's run in the full deck: the
/// numbers 1 to 10 ascending, then King, Queen, Jack.
pub open spec fn rank_at(j: int) -> Rank {
    if j < 10 {
        Rank::Number((j + 1) as u32)
    } else if j == 10 {
        Rank::Face(Face::King)
    } else if j == 11 {
        Rank::Face(Face::Queen)
    } else {
        Rank::Face(Face::Jack)
    }
}

/// The thirteen cards of one suit, in deck order.
pub open spec fn suit_run(s: Suit) -> Seq<(Rank, Suit)> {
    Seq::new(13, |j: int| (rank_at(j), s))
}

/// The suits in deck order.
pub open spec fn suit_order() -> Seq<Suit> {
    seq![Suit::Diamonds, Suit::Clubs, Suit::Hearts, Suit::Spades]
}

/// The runs of the first `k` suits of `suit_order()`, one after the other.
pub open spec fn runs(k: int) -> Seq<(Rank, Suit)>
    decreases k,
{
    if k <= 0 {
        Seq::empty()
    } else {
        runs(k - 1) + suit_run(suit_order()[k - 1])
    }
}

/// The full deck, in the order in which it is built.
pub open spec fn standard_deck() -> Seq<(Rank, Suit)> {
    suit_run(Suit::Diamonds) + suit_run(Suit::Clubs) + suit_run(Suit::Hearts) + suit_run(
        Suit::Spades,
    )
}

/// `r` is an outcome of drawing once from `before`, which leaves `after`:
/// nothing from an empty hand, else the card at some position, removed.
pub open spec fn draw_outcome(
    before: Seq<(Rank, Suit)>,
    r: Option<(Rank, Suit)>,
    after: Seq<(Rank, Suit)>,
) -> bool {
    match r {
        None => before.len() == 0 && after == before,
        Some(c) => exists|i: int|
            0 <= i < before.len() && before[i] == c && after == before.remove(i),
    }
}

/// The view of a card that may be missing.
pub open spec fn opt_view(r: Option<Card>) -> Option<(Rank, Suit)> {
    match r {
        Some(c) => Some(c@),
        None => None,
    }
}

/// Moving up to `num` cards from the hand `src` to the end of the hand `dst`
/// turned `(dst, src)` into `(dst2, src2)`: `min(num, |src|)` cards moved, the
/// cards already in `dst` stay in front, and no card was made or lost.
pub open spec fn moved_between(
    dst: Seq<(Rank, Suit)>,
    src: Seq<(Rank, Suit)>,
    dst2: Seq<(Rank, Suit)>,
    src2: Seq<(Rank, Suit)>,
    num: nat,
) -> bool {
    let k = if num < src.len() {
        num as int
    } else {
        src.len() as int
    };
    &&& dst2.len() == dst.len() + k
    &&& src2.len() == src.len() - k
    &&& dst2.subrange(0, dst.len() as int) == dst
    &&& dst2.subrange(dst.len() as int, dst2.len() as int).to_multiset().add(src2.to_multiset())
        == src.to_multiset()
}

/// Relies on `rand::thread_rng` and `Rng::gen_range` (rand 0.7), which returns
/// a value in `[low, high)` and panics when `low >= high`.
#[verifier::external_body]
fn random_index(n: usize) -> (i: usize)
    requires
        n > 0,
    ensures
        i < n,
{
    rand::thread_rng().gen_range(0, n)
}

/// An ordered collection of cards. The full deck and the players' hands are
/// all hands.
pub struct Hand {
    cards: Vec<Card>,
}

impl View for Hand {
    type V = Seq<(Rank, Suit)>;

    closed spec fn view(&self) -> Seq<(Rank, Suit)> {
        self.cards@.map_values(|c: Card| c@)
    }
}

/// Appends the run of one suit.
fn push_suit(deck: &mut Vec<Card>, suit: Suit)
    ensures
        final(deck)@.map_values(|c: Card| c@) == old(deck)@.map_values(|c: Card| c@) + suit_run(
            suit,
        ),
{
    let ghost start = deck@.map_values(|c: Card| c@);
    let mut n: u32 = 1;
    while n < 11
        invariant
            1 <= n <= 11,
            deck@.map_values(|c: Card| c@) == start + suit_run(suit).take(n - 1),
        decreases 11 - n,
    {
        let card = Card::new(Rank::Number(n), suit);
        let ghost prev = deck@;
        deck.push(card);
        assert(deck@.map_values(|c: Card| c@) =~= prev.map_values(|c: Card| c@).push(card@));
        assert(suit_run(suit).take(n as int) =~= suit_run(suit).take(n - 1).push(card@));
        n = n + 1;
    }
    let faces: [Face; 3] = [Face::King, Face::Queen, Face::Jack];
    let mut f: usize = 0;
    while f < 3
        invariant
            f <= 3,
            faces@ == seq![Face::King, Face::Queen, Face::Jack],
            deck@.map_values(|c: Card| c@) == start + suit_run(suit).take(10 + f),
        decreases 3 - f,
    {
        let card = Card::new(Rank::Face(faces[f]), suit);
        let ghost prev = deck@;
        deck.push(card);
        assert(deck@.map_values(|c: Card| c@) =~= prev.map_values(|c: Card| c@).push(card@));
        assert(suit_run(suit).take(11 + f) =~= suit_run(suit).take(10 + f).push(card@));
        f = f + 1;
    }
    assert(suit_run(suit).take(13) =~= suit_run(suit));
}

impl Hand {
    pub fn new() -> (h: Hand)
        ensures
            h@ == Seq::<(Rank, Suit)>::empty(),
    {
        let h = Hand { cards: Vec::new() };
        assert(h@ =~= Seq::<(Rank, Suit)>::empty());
        h
    }

    /// The full deck: for each suit in turn, the numbers 1 to 10, then King,
    /// Queen and Jack.
    pub fn get_deck() -> (h: Hand)
        ensures
            h@ == standard_deck(),
    {
        let suits: [Suit; 4] = [Suit::Diamonds, Suit::Clubs, Suit::Hearts, Suit::Spades];
        let mut deck: Vec<Card> = Vec::new();
        let mut s: usize = 0;
        while s < 4
            invariant
                s <= 4,
                suits@ == suit_order(),
                deck@.map_values(|c: Card| c@) == runs(s as int),
            decreases 4 - s,
        {
            push_suit(&mut deck, suits[s]);
            s = s + 1;
        }
        proof {
            reveal_with_fuel(runs, 5);
            assert(runs(4) =~= standard_deck());
        }
        let h = Hand { cards: deck };
        assert(h@ == standard_deck());
        h
    }

    pub fn iter(&self) -> (it: std::slice::Iter<'_, Card>)
        ensures
            vstd::std_specs::slice::into_iter_elts(it).map_values(|c: Card| c@) == self@,
    {
        broadcast use vstd::std_specs::slice::axiom_spec_slice_iter;

        self.cards.iter()
    }

    /// The cards, in order.
    pub(crate) fn as_slice(&self) -> (s: &[Card])
        ensures
            s@.map_values(|c: Card| c@) == self@,
    {
        self.cards.as_slice()
    }

    /// Removes and returns the card at `index`; the cards after it move up.
    pub fn remove(&mut self, index: usize) -> (c: Card)
        requires
            index < old(self)@.len(),
        ensures
            c@ == old(self)@[index as int],
            final(self)@ == old(self)@.remove(index as int),
    {
        let ghost before = self.cards@;
        let c = self.cards.remove(index);
        assert(self@ =~= before.map_values(|c: Card| c@).remove(index as int));
        c
    }

    /// Removes one card chosen uniformly at random, or returns `None` when the
    /// hand is empty.
    pub fn draw(&mut self) -> (r: Option<Card>)
        ensures
            draw_outcome(old(self)@, opt_view(r), final(self)@),
    {
        let n = self.cards.len();
        if n == 0 {
            None
        } else {
            let i = random_index(n);
            Some(self.remove(i))
        }
    }

    /// Draws from `hand` into `self`, appending each drawn card, `num` times or
    /// until `hand` is empty.
    pub fn draw_from(&mut self, hand: &mut Hand, num: u32)
        ensures
            moved_between(old(self)@, old(hand)@, final(self)@, final(hand)@, num as nat),
    {
        let ghost self0 = self@;
        let ghost hand0 = hand@;
        assert(self@.subrange(0, self0.len() as int) =~= self0);
        assert(self@.subrange(self0.len() as int, self@.len() as int) =~= Seq::empty());
        assert(Seq::<(Rank, Suit)>::empty().to_multiset().add(hand0.to_multiset())
            =~= hand0.to_multiset());
        let mut i: u32 = 0;
        while i < num
            invariant
                i <= num,
                self0 == old(self)@,
                hand0 == old(hand)@,
                moved_between(self0, hand0, self@, hand@, i as nat),
            decreases num - i,
        {
            let ghost before = hand@;
            let ghost mine = self@;
            match hand.draw() {
                Some(card) => {
                    let ghost moved = mine.subrange(self0.len() as int, mine.len() as int);
                    proof {
                        let k = choose|k: int|
                            0 <= k < before.len() && before[k] == card@ && hand@ == before.remove(
                                k,
                            );
                        assert(hand@.to_multiset() == before.to_multiset().remove(card@));
                        assert(before.to_multiset().contains(card@));
                    }
                    self.push(card);
                    proof {
                        assert(self@.subrange(self0.len() as int, self@.len() as int)
                            =~= moved.push(card@));
                        assert(self@.subrange(0, self0.len() as int) =~= mine.subrange(
                            0,
                            self0.len() as int,
                        ));
                        assert(moved.push(card@).to_multiset().add(hand@.to_multiset())
                            =~= moved.to_multiset().add(before.to_multiset()));
                    }
                },
                None => {
                    assert(hand0.len() <= i);
                    return ;
                },
            }
            i = i + 1;
        }
    }

    /// Appends a card.
    fn push(&mut self, card: Card)
        ensures
            final(self)@ == old(self)@.push(card@),
    {
        let ghost before = self.cards@;
        self.cards.push(card);
        assert(self@ =~= before.map_values(|c: Card| c@).push(card@));
    }

    /// Deals a new hand of up to `num` cards drawn from `self`.
    pub fn draw_hand(&mut self, num: u32) -> (h: Hand)
        ensures
            moved_between(Seq::empty(), old(self)@, h@, final(self)@, num as nat),
    {
        let mut hand = Hand::new();
        hand.draw_from(self, num);
        hand
    }
}

} // verus!
