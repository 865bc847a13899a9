use cards::card::{Card, Face, Rank, Suit};
use cards::hand::Hand;

fn names(hand: &Hand) -> Vec<String> {
    hand.iter().map(|c| c.to_string()).collect()
}

#[test]
fn full_deck_has_52_distinct_cards() {
    let deck = Hand::get_deck();
    let cards: Vec<&Card> = deck.iter().collect();
    assert_eq!(cards.len(), 52);
    for i in 0..cards.len() {
        for j in (i + 1)..cards.len() {
            assert_ne!(cards[i], cards[j]);
        }
    }
}

#[test]
fn full_deck_order() {
    let n = names(&Hand::get_deck());
    assert_eq!(n[0], "Ace of Diamonds");
    assert_eq!(n[1], "2 of Diamonds");
    assert_eq!(n[9], "10 of Diamonds");
    assert_eq!(n[10], "King of Diamonds");
    assert_eq!(n[11], "Queen of Diamonds");
    assert_eq!(n[12], "Jack of Diamonds");
    assert_eq!(n[13], "Ace of Clubs");
    assert_eq!(n[26], "Ace of Hearts");
    assert_eq!(n[39], "Ace of Spades");
    assert_eq!(n[51], "Jack of Spades");
}

#[test]
fn full_deck_is_deterministic() {
    let a = Hand::get_deck();
    let b = Hand::get_deck();
    let x: Vec<&Card> = a.iter().collect();
    let y: Vec<&Card> = b.iter().collect();
    assert_eq!(x, y);
}

#[test]
fn drawing_until_empty_draws_each_card_once() {
    let mut deck = Hand::get_deck();
    let mut drawn: Vec<String> = Vec::new();
    while let Some(card) = deck.draw() {
        drawn.push(card.to_string());
    }
    assert_eq!(drawn.len(), 52);
    assert_eq!(deck.iter().count(), 0);
    let mut expected = names(&Hand::get_deck());
    drawn.sort();
    expected.sort();
    assert_eq!(drawn, expected);
    for _ in 0..5 {
        assert!(deck.draw().is_none());
    }
}

#[test]
fn draw_from_a_single_card_hand() {
    let mut deck = Hand::get_deck();
    let mut one = deck.draw_hand(1);
    let card = one.draw().unwrap();
    assert_eq!(one.iter().count(), 0);
    assert!(deck.iter().all(|c| *c != card));
}

#[test]
fn draw_from_empty_hand_is_none() {
    let mut hand = Hand::new();
    assert!(hand.draw().is_none());
    assert!(hand.draw().is_none());
    assert_eq!(hand.iter().count(), 0);
}

#[test]
fn transfer_more_than_source_moves_all() {
    let mut deck = Hand::get_deck();
    let mut a = deck.draw_hand(10);
    let mut b = deck.draw_hand(3);
    let mut before: Vec<String> = names(&a);
    before.extend(names(&b));
    let b_start = names(&b);
    b.draw_from(&mut a, 25);
    assert_eq!(a.iter().count(), 0);
    assert_eq!(b.iter().count(), 13);
    let b_end = names(&b);
    assert_eq!(&b_end[..3], &b_start[..]);
    let mut after = b_end.clone();
    before.sort();
    after.sort();
    assert_eq!(before, after);
}

#[test]
fn transfer_fewer_than_source() {
    let mut deck = Hand::get_deck();
    let mut hand = Hand::new();
    hand.draw_from(&mut deck, 5);
    assert_eq!(hand.iter().count(), 5);
    assert_eq!(deck.iter().count(), 47);
    hand.draw_from(&mut deck, 0);
    assert_eq!(hand.iter().count(), 5);
}

#[test]
fn deal_hands_from_deck() {
    let mut deck = Hand::get_deck();
    let player = deck.draw_hand(7);
    let enemy = deck.draw_hand(7);
    assert_eq!(player.iter().count(), 7);
    assert_eq!(enemy.iter().count(), 7);
    assert_eq!(deck.iter().count(), 38);
    let rest = deck.draw_hand(100);
    assert_eq!(rest.iter().count(), 38);
    assert_eq!(deck.iter().count(), 0);
}

#[test]
fn remove_takes_the_card_at_index() {
    let mut deck = Hand::get_deck();
    let card = deck.remove(10);
    assert_eq!(card.to_string(), "King of Diamonds");
    assert_eq!(deck.iter().count(), 51);
    let n = names(&deck);
    assert_eq!(n[10], "Queen of Diamonds");
    let last = deck.remove(50);
    assert_eq!(last.to_string(), "Jack of Spades");
}

#[test]
fn rank_glyphs() {
    let g = |r: Rank| Card::new(r, Suit::Hearts).get_rank();
    assert_eq!(g(Rank::Number(1)), 'A');
    assert_eq!(g(Rank::Number(2)), '2');
    assert_eq!(g(Rank::Number(7)), '7');
    assert_eq!(g(Rank::Number(9)), '9');
    assert_eq!(g(Rank::Number(10)), '1');
    assert_eq!(g(Rank::Face(Face::King)), 'K');
    assert_eq!(g(Rank::Face(Face::Queen)), 'Q');
    assert_eq!(g(Rank::Face(Face::Jack)), 'J');
}

#[test]
fn suit_glyphs() {
    let g = |s: Suit| Card::new(Rank::Number(3), s).get_suit();
    assert_eq!(g(Suit::Diamonds), '♢');
    assert_eq!(g(Suit::Clubs), '♧');
    assert_eq!(g(Suit::Hearts), '♡');
    assert_eq!(g(Suit::Spades), '♤');
}

#[test]
fn display_names() {
    assert_eq!(Rank::Number(1).to_string(), "Ace");
    assert_eq!(Rank::Number(10).to_string(), "10");
    assert_eq!(Rank::Number(5).to_string(), "5");
    assert_eq!(Rank::Face(Face::King).to_string(), "King");
    assert_eq!(Rank::Face(Face::Queen).to_string(), "Queen");
    assert_eq!(Rank::Face(Face::Jack).to_string(), "Jack");
    assert_eq!(Suit::Clubs.to_string(), "Clubs");
    assert_eq!(Card::new(Rank::Number(1), Suit::Spades).to_string(), "Ace of Spades");
    assert_eq!(Card::new(Rank::Number(10), Suit::Clubs).to_string(), "10 of Clubs");
    assert_eq!(Card::new(Rank::Face(Face::King), Suit::Hearts).to_string(), "King of Hearts");
}
