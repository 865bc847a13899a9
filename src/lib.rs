//! A standard 52-card deck: cards, hands, random draws between hands, and a
//! box-drawn text rendering of a hand.

pub mod card;
pub mod hand;
pub mod render;
pub mod laws;
