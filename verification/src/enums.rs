//! Tagged unions: a closed set of coin variants, one of which carries data,
//! with an exhaustive dispatch that prices each variant; and a message union
//! whose variants carry no data, positional data, or named fields.

use vstd::prelude::*;

verus! {

/// A state named on the back of a quarter.
#[derive(Clone, Copy, PartialEq, Eq, Structural)]
pub enum UsState {
    Alabama,
    Alaska,
}

/// A coin denomination; quarters carry the state they honor.
pub enum Coin {
    Penny,
    Nickel,
    Dime,
    Quarter(UsState),
}

/// The value of a coin in cents: one for a penny, five for a nickel,
/// ten for a dime, twenty-five for a quarter.
pub fn value_in_cents(coin: &Coin) -> (cents: u8)
    ensures
        cents == match coin {
            Coin::Penny => 1u8,
            Coin::Nickel => 5u8,
            Coin::Dime => 10u8,
            Coin::Quarter(_) => 25u8,
        },
{
    match coin {
        Coin::Penny => 1,
        Coin::Nickel => 5,
        Coin::Dime => 10,
        Coin::Quarter(_) => 25,
    }
}

/// A message whose variants carry no data, named fields, one string, or
/// three positional numbers.
pub enum Message {
    Quit,
    Move { x: i32, y: i32 },
    Write(String),
    ChangeColor(i32, i32, i32),
}

impl Message {
    /// Exhaustive dispatch over the variants, returning each one's name.
    pub fn kind_name(&self) -> (name: String)
        ensures
            name@ == match self {
                Message::Quit => "Quit"@,
                Message::Move { .. } => "Move"@,
                Message::Write(_) => "Write"@,
                Message::ChangeColor(..) => "ChangeColor"@,
            },
    {
        match self {
            Message::Quit => String::from_str("Quit"),
            Message::Move { .. } => String::from_str("Move"),
            Message::Write(_) => String::from_str("Write"),
            Message::ChangeColor(..) => String::from_str("ChangeColor"),
        }
    }
}

/// The single-pattern test behind `if let`: a quarter passes through
/// untouched, and anything else bumps the tally of other coins.
pub fn tally_non_quarter(coin: &Coin, count: u32) -> (new_count: u32)
    requires
        count < u32::MAX,
    ensures
        coin matches Coin::Quarter(_) ==> new_count == count,
        !(coin matches Coin::Quarter(_)) ==> new_count == count + 1,
{
    if let Coin::Quarter(_state) = coin {
        count
    } else {
        count + 1
    }
}

} // verus!
