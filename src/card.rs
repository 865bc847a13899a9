//! One playing card: its rank, its suit, and how each is written.

use vstd::prelude::*;

verus! {

/// The three face ranks.
#[derive(Clone, Copy, Debug, PartialEq, Eq, Structural)]
pub enum Face {
    King,
    Queen,
    Jack,
}

/// A rank: a number from 1 (the ace) to 10, or a face.
#[derive(Clone, Copy, Debug, PartialEq, Eq, Structural)]
pub enum Rank {
    Number(u32),
    Face(Face),
}

/// The four suits.
#[derive(Clone, Copy, Debug, PartialEq, Eq, Structural)]
pub enum Suit {
    Diamonds,
    Clubs,
    Hearts,
    Spades,
}

/// A card is a rank together with a suit. Its rank is always valid.
#[derive(Debug, PartialEq, Eq, Structural)]
pub struct Card {
    rank: Rank,
    suit: Suit,
}

impl View for Card {
    type V = (Rank, Suit);

    closed spec fn view(&self) -> (Rank, Suit) {
        (self.rank, self.suit)
    }
}

impl Rank {
    /// A numeric rank lies in `1..=10`; every face is a valid rank.
    pub open spec fn wf(self) -> bool {
        match self {
            Rank::Number(n) => 1 <= n <= 10,
            Rank::Face(_) => true,
        }
    }
}

impl Card {
    #[verifier::type_invariant]
    spec fn rank_wf(self) -> bool {
        self.rank.wf()
    }
}

/// The character of a decimal digit `d < 10`.
pub open spec fn digit_char(d: nat) -> char {
    ((d + 48) as u32) as char
}

/// The glyph printed for a suit.
pub open spec fn suit_glyph(s: Suit) -> char {
    match s {
        Suit::Diamonds => '♢',
        Suit::Clubs => '♧',
        Suit::Hearts => '♡',
        Suit::Spades => '♤',
    }
}

/// The glyph printed for a rank. Ten is written with the glyph `'1'`, which the
/// renderer widens to the two characters `"10"`.
pub open spec fn rank_glyph(r: Rank) -> char {
    match r {
        Rank::Number(n) => if n == 10 {
            '1'
        } else if n == 1 {
            'A'
        } else {
            digit_char(n as nat)
        },
        Rank::Face(Face::King) => 'K',
        Rank::Face(Face::Queen) => 'Q',
        Rank::Face(Face::Jack) => 'J',
    }
}

/// The character of a decimal digit.
fn digit(d: u32) -> (c: char)
    requires
        d < 10,
    ensures
        c == digit_char(d as nat),
{
    ((d as u8) + 48u8) as char
}

impl Card {
    pub fn new(rank: Rank, suit: Suit) -> (c: Card)
        requires
            rank.wf(),
        ensures
            c@ == (rank, suit),
    {
        Card { rank, suit }
    }

    pub fn get_suit(&self) -> (c: char)
        ensures
            c == suit_glyph(self@.1),
    {
        match self.suit {
            Suit::Diamonds => '♢',
            Suit::Clubs => '♧',
            Suit::Hearts => '♡',
            Suit::Spades => '♤',
        }
    }

    pub fn get_rank(&self) -> (c: char)
        ensures
            c == rank_glyph(self@.0),
            self@.0.wf(),
    {
        proof {
            use_type_invariant(self);
        }
        match self.rank {
            Rank::Number(n) => if n == 10 {
                '1'
            } else if n == 1 {
                'A'
            } else {
                digit(n)
            },
            Rank::Face(Face::King) => 'K',
            Rank::Face(Face::Queen) => 'Q',
            Rank::Face(Face::Jack) => 'J',
        }
    }
}

/// The decimal numeral of `n`, most significant digit first.
pub open spec fn decimal(n: nat) -> Seq<char>
    decreases n,
{
    if n < 10 {
        seq![digit_char(n)]
    } else {
        decimal(n / 10) + seq![digit_char(n % 10)]
    }
}

/// How a rank is named: "Ace", the numeral of 2 to 10, or the face's name.
pub open spec fn rank_name(r: Rank) -> Seq<char> {
    match r {
        Rank::Number(n) => if n == 1 {
            "Ace"@
        } else {
            decimal(n as nat)
        },
        Rank::Face(Face::King) => "King"@,
        Rank::Face(Face::Queen) => "Queen"@,
        Rank::Face(Face::Jack) => "Jack"@,
    }
}

/// How a suit is named.
pub open spec fn suit_name(s: Suit) -> Seq<char> {
    match s {
        Suit::Diamonds => "Diamonds"@,
        Suit::Clubs => "Clubs"@,
        Suit::Hearts => "Hearts"@,
        Suit::Spades => "Spades"@,
    }
}

/// How a card is named: "<rank> of <suit>".
pub open spec fn card_name(c: (Rank, Suit)) -> Seq<char> {
    rank_name(c.0) + " of "@ + suit_name(c.1)
}

/// Relies on `String`'s `FromIterator<char>`: the string holds the characters
/// in the order given.
#[verifier::external_body]
pub(crate) fn string_of_chars(v: &Vec<char>) -> (s: String)
    ensures
        s@ == v@,
{
    v.iter().collect::<String>()
}

impl Rank {
    pub fn to_string(&self) -> (s: String)
        requires
            self.wf(),
        ensures
            s@ == rank_name(*self),
    {
        match self {
            Rank::Number(n) => {
                if *n == 1 {
                    String::from_str("Ace")
                } else if *n == 10 {
                    proof {
                        reveal_with_fuel(decimal, 2);
                    }
                    string_of_chars(&vec!['1', '0'])
                } else {
                    string_of_chars(&vec![digit(*n)])
                }
            },
            Rank::Face(Face::King) => String::from_str("King"),
            Rank::Face(Face::Queen) => String::from_str("Queen"),
            Rank::Face(Face::Jack) => String::from_str("Jack"),
        }
    }
}

impl Suit {
    pub fn to_string(&self) -> (s: String)
        ensures
            s@ == suit_name(*self),
    {
        match self {
            Suit::Diamonds => String::from_str("Diamonds"),
            Suit::Clubs => String::from_str("Clubs"),
            Suit::Hearts => String::from_str("Hearts"),
            Suit::Spades => String::from_str("Spades"),
        }
    }
}

impl Card {
    pub fn to_string(&self) -> (s: String)
        ensures
            s@ == card_name(self@),
    {
        proof {
            use_type_invariant(self);
        }
        let mut s = self.rank.to_string();
        s.append(" of ");
        let suit = self.suit.to_string();
        s.append(suit.as_str());
        s
    }
}

} // verus!
