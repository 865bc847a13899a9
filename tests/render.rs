use cards::card::{Card, Rank, Suit};
use cards::hand::Hand;

#[test]
fn ten_renders_as_two_characters_in_both_corners() {
    let row = [Card::new(Rank::Number(10), Suit::Clubs)];
    let text = Hand::display_row(&row);
    let lines: Vec<&str> = text.lines().collect();
    assert_eq!(lines, vec!["┌─────┐", "│10   │", "│  ♧  │", "│   10│", "└─────┘"]);
}

#[test]
fn row_of_two_cards() {
    let row = [
        Card::new(Rank::Number(1), Suit::Spades),
        Card::new(Rank::Number(7), Suit::Diamonds),
    ];
    let text = Hand::display_row(&row);
    assert_eq!(
        text,
        "┌─────┐┌─────┐\n│A    ││7    │\n│  ♤  ││  ♢  │\n│    A││    7│\n└─────┘└─────┘\n"
    );
}

#[test]
fn empty_row_is_five_empty_lines() {
    let row: [Card; 0] = [];
    assert_eq!(Hand::display_row(&row), "\n\n\n\n\n");
}

#[test]
fn empty_hand_only_clears_the_screen() {
    assert_eq!(Hand::new().display(), "\u{1b}[2J");
}

#[test]
fn fifteen_cards_render_as_rows_of_7_7_1() {
    let mut deck = Hand::get_deck();
    let hand = deck.draw_hand(15);
    let text = hand.display();
    assert!(text.starts_with("\u{1b}[2J"));
    let body = &text["\u{1b}[2J".len()..];
    let lines: Vec<&str> = body.lines().collect();
    assert_eq!(lines.len(), 15);
    let tops: Vec<usize> = [0, 5, 10].iter().map(|&i| lines[i].matches('┌').count()).collect();
    assert_eq!(tops, vec![7, 7, 1]);
    let bottoms: Vec<usize> = [4, 9, 14].iter().map(|&i| lines[i].matches('└').count()).collect();
    assert_eq!(bottoms, vec![7, 7, 1]);
    for i in 0..15 {
        let width = if i < 10 { 7 * 7 } else { 7 };
        assert_eq!(lines[i].chars().count(), width);
    }
}

#[test]
fn seven_cards_fit_one_row() {
    let mut deck = Hand::get_deck();
    let hand = deck.draw_hand(7);
    let text = hand.display();
    assert_eq!(text.lines().count(), 5);
}

#[test]
fn display_deck_starts_with_ace_of_diamonds() {
    let deck = Hand::get_deck();
    let text = deck.display();
    let lines: Vec<&str> = text["\u{1b}[2J".len()..].lines().collect();
    assert_eq!(lines.len(), 40);
    assert!(lines[1].starts_with("│A    ││2    │"));
    assert!(lines[3].starts_with("│    A││    2│"));
}
